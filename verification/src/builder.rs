//! The builder of one attachment mechanism: it loads one program, shared by
//! every probe of that mechanism, and holds the links of what is attached:
//! one per hook, for as long as the program is loaded, and one per probe,
//! until the next `detach`.
//!
//! A shared map is given as its name and the descriptor of the kernel map
//! behind it; the builder passes the descriptor on for the load and never
//! owns it.

use vstd::prelude::*;
use crate::hook::{Filter, Hook};
use crate::kernel::{init_ops, init_sequence, KernelOp, LoadReply};
use crate::probe::{attach_name_of, Probe, ProbeKind};

verus! {

/// Why a builder refused an operation.
#[derive(Clone, Copy, Debug, PartialEq, Eq, Structural)]
pub enum BuilderError {
    /// `init` was called on a builder that is already initialized.
    AlreadyInitialized,
    /// `attach` was called with a probe of the builder's own mechanism on a
    /// builder that is not initialized.
    Uninitialized,
    /// `attach` was called with a probe of another mechanism.
    WrongProbeType { expected: ProbeKind, found: ProbeKind },
    /// The kernel failed this step of the load.
    LoadFailed { op: KernelOp },
    /// The kernel could not attach the program to the probe's target.
    AttachFailed,
    /// The answer to a load does not fit the load that was asked for: it
    /// names a step the sequence does not have, or holds another number of
    /// links than there are hooks.
    BadReply,
}

impl BuilderError {
    /// A usage error, as opposed to a failure of the kernel.
    pub open spec fn is_configuration(self) -> bool {
        self is AlreadyInitialized || self is Uninitialized || self is WrongProbeType
    }

    /// Tells a usage error from a failure of the kernel.
    pub fn configuration(&self) -> (b: bool)
        ensures
            b == self.is_configuration(),
    {
        match self {
            BuilderError::AlreadyInitialized => true,
            BuilderError::Uninitialized => true,
            BuilderError::WrongProbeType { .. } => true,
            _ => false,
        }
    }
}

/// What a builder is, as a mathematical value.
pub struct BuilderState {
    /// The mechanism the builder attaches with.
    pub kind: ProbeKind,
    /// The hook count the program was loaded with; `None` before `init`.
    pub loaded: Option<nat>,
    /// The links of the hooks installed at the load, in the hooks' order.
    /// They stay for as long as the builder lives.
    pub hook_links: Seq<u64>,
    /// The live links of the attached probes, one each, oldest first.
    pub links: Seq<u64>,
}

/// What holds of every builder that was made by `new` and changed by `init`,
/// `attach` and `detach` alone: before the load it holds no link at all, and
/// once loaded it holds exactly one link per hook.
pub open spec fn coherent(b: BuilderState) -> bool {
    match b.loaded {
        None => b.hook_links.len() == 0 && b.links.len() == 0,
        Some(n) => b.hook_links.len() == n,
    }
}

/// What `init` answers, given the builder, the lists it is handed and the
/// kernel's reply.
pub open spec fn init_result(
    b: BuilderState,
    nmaps: nat,
    nhooks: nat,
    nfilters: nat,
    reply: LoadReply,
) -> Result<(), BuilderError> {
    if b.loaded is Some {
        Err(BuilderError::AlreadyInitialized)
    } else {
        match reply {
            LoadReply::Failed { step } => {
                let plan = init_sequence(b.kind, nmaps, nfilters, nhooks);
                if step < plan.len() {
                    Err(BuilderError::LoadFailed { op: plan[step as int] })
                } else {
                    Err(BuilderError::BadReply)
                }
            },
            LoadReply::Loaded { hook_links } => {
                if hook_links@.len() == nhooks {
                    Ok(())
                } else {
                    Err(BuilderError::BadReply)
                }
            },
        }
    }
}

/// The builder after `init`: loaded with the hook count and holding the
/// hooks' links, in the hooks' order, where `init` succeeds; unchanged where
/// it fails. The links of probes are not touched.
pub open spec fn after_init(
    b: BuilderState,
    nmaps: nat,
    nhooks: nat,
    nfilters: nat,
    reply: LoadReply,
) -> BuilderState {
    match (init_result(b, nmaps, nhooks, nfilters, reply), reply) {
        (Ok(_), LoadReply::Loaded { hook_links }) => BuilderState {
            kind: b.kind,
            loaded: Some(nhooks),
            hook_links: hook_links@,
            links: b.links,
        },
        _ => b,
    }
}

/// Whether a builder takes probes of a mechanism at all: never those of
/// another mechanism, loaded or not, and those of its own not before it is
/// initialized.
pub open spec fn attach_check(b: BuilderState, probe: ProbeKind) -> Result<(), BuilderError> {
    if probe != b.kind {
        Err(BuilderError::WrongProbeType { expected: b.kind, found: probe })
    } else if b.loaded is None {
        Err(BuilderError::Uninitialized)
    } else {
        Ok(())
    }
}

/// What `attach` answers, given the builder, the probe's mechanism and the
/// link the kernel made, if it made one.
pub open spec fn attach_result(b: BuilderState, probe: ProbeKind, link: Option<u64>) -> Result<
    (),
    BuilderError,
> {
    if attach_check(b, probe) is Err {
        attach_check(b, probe)
    } else if link is None {
        Err(BuilderError::AttachFailed)
    } else {
        Ok(())
    }
}

/// The builder after `attach`: one more link where it succeeds, unchanged
/// where it fails.
pub open spec fn after_attach(b: BuilderState, probe: ProbeKind, link: Option<u64>) -> BuilderState {
    match (attach_result(b, probe, link), link) {
        (Ok(_), Some(l)) => BuilderState {
            kind: b.kind,
            loaded: b.loaded,
            hook_links: b.hook_links,
            links: b.links.push(l),
        },
        _ => b,
    }
}

/// The builder after `detach`: no probe's link left; the loaded program and
/// its hooks kept.
pub open spec fn after_detach(b: BuilderState) -> BuilderState {
    BuilderState {
        kind: b.kind,
        loaded: b.loaded,
        hook_links: b.hook_links,
        links: Seq::<u64>::empty(),
    }
}

/// The engine of one attachment mechanism.
#[derive(Debug)]
pub struct ProbeBuilder {
    kind: ProbeKind,
    loaded: Option<usize>,
    hook_links: Vec<u64>,
    links: Vec<u64>,
}

impl View for ProbeBuilder {
    type V = BuilderState;

    closed spec fn view(&self) -> BuilderState {
        BuilderState {
            kind: self.kind,
            loaded: match self.loaded {
                Some(n) => Some(n as nat),
                None => None,
            },
            hook_links: self.hook_links@,
            links: self.links@,
        }
    }
}

impl ProbeBuilder {
    /// An empty builder of a mechanism: nothing loaded, no link.
    pub fn new(kind: ProbeKind) -> (b: ProbeBuilder)
        ensures
            b@ == (BuilderState {
                kind,
                loaded: None,
                hook_links: Seq::<u64>::empty(),
                links: Seq::<u64>::empty(),
            }),
    {
        ProbeBuilder { kind, loaded: None, hook_links: Vec::new(), links: Vec::new() }
    }

    /// The mechanism this builder attaches with.
    pub fn kind(&self) -> (k: ProbeKind)
        ensures
            k == self@.kind,
    {
        self.kind
    }

    /// Whether `init` has succeeded on this builder.
    pub fn is_initialized(&self) -> (b: bool)
        ensures
            b == (self@.loaded is Some),
    {
        self.loaded.is_some()
    }

    /// The hook count the program was loaded with, once it is loaded.
    pub fn hook_count(&self) -> (n: Option<usize>)
        ensures
            n is Some == self@.loaded is Some,
            n is Some ==> n->Some_0 as nat == self@.loaded->Some_0,
    {
        self.loaded
    }

    /// The links of the installed hooks, in the hooks' order.
    pub fn hook_links(&self) -> (l: &Vec<u64>)
        ensures
            l@ == self@.hook_links,
    {
        &self.hook_links
    }

    /// How many probes are attached: the number of their live links.
    pub fn link_count(&self) -> (n: usize)
        ensures
            n == self@.links.len(),
    {
        self.links.len()
    }

    /// The live links of the attached probes, oldest first.
    pub fn links(&self) -> (l: &Vec<u64>)
        ensures
            l@ == self@.links,
    {
        &self.links
    }

    /// The kernel steps that `init` stands for, in the order in which they
    /// must run; refused on a builder that is already initialized, so that
    /// no kernel work is done for it.
    pub fn init_plan(
        &self,
        map_fds: &Vec<(String, i32)>,
        hooks: &Vec<Hook>,
        filters: &Vec<Filter>,
    ) -> (r: Result<Vec<KernelOp>, BuilderError>)
        ensures
            self@.loaded is Some ==> r == Err::<Vec<KernelOp>, BuilderError>(
                BuilderError::AlreadyInitialized,
            ),
            self@.loaded is None ==> r is Ok && r->Ok_0@ == init_sequence(
                self@.kind,
                map_fds@.len(),
                filters@.len(),
                hooks@.len(),
            ),
    {
        if self.loaded.is_some() {
            return Err(BuilderError::AlreadyInitialized);
        }
        Ok(init_ops(self.kind, map_fds.len(), filters.len(), hooks.len()))
    }

    /// Records a load. Fails on a builder that is already initialized, and
    /// where the kernel failed a step; the builder is then as it was. Where
    /// every step succeeded the builder is initialized with the hook count,
    /// and holds the hooks' links, in the hooks' order, apart from the links
    /// of probes.
    pub fn init(
        &mut self,
        map_fds: &Vec<(String, i32)>,
        hooks: &Vec<Hook>,
        filters: &Vec<Filter>,
        reply: LoadReply,
    ) -> (r: Result<(), BuilderError>)
        ensures
            r == init_result(old(self)@, map_fds@.len(), hooks@.len(), filters@.len(), reply),
            final(self)@ == after_init(
                old(self)@,
                map_fds@.len(),
                hooks@.len(),
                filters@.len(),
                reply,
            ),
    {
        if self.loaded.is_some() {
            return Err(BuilderError::AlreadyInitialized);
        }
        match reply {
            LoadReply::Failed { step } => {
                let plan = init_ops(self.kind, map_fds.len(), filters.len(), hooks.len());
                if step < plan.len() {
                    Err(BuilderError::LoadFailed { op: plan[step] })
                } else {
                    Err(BuilderError::BadReply)
                }
            },
            LoadReply::Loaded { hook_links } => {
                if hook_links.len() != hooks.len() {
                    return Err(BuilderError::BadReply);
                }
                self.hook_links = hook_links;
                self.loaded = Some(hooks.len());
                Ok(())
            },
        }
    }

    /// The name to attach a probe at; refused where `attach` would refuse
    /// whatever the kernel did, so that no kernel work is done for it.
    pub fn attach_target(&self, probe: &Probe) -> (r: Result<String, BuilderError>)
        ensures
            match r {
                Ok(name) => attach_check(self@, probe@.kind) is Ok && name@ == attach_name_of(
                    probe@.target,
                ),
                Err(e) => attach_check(self@, probe@.kind) == Err::<(), BuilderError>(e),
            },
    {
        if probe.kind() != self.kind {
            return Err(BuilderError::WrongProbeType { expected: self.kind, found: probe.kind() });
        }
        if self.loaded.is_none() {
            return Err(BuilderError::Uninitialized);
        }
        Ok(probe.attach_name())
    }

    /// Records an attachment. Fails on a probe of another mechanism, whether
    /// or not the builder is initialized; on a probe of its own mechanism
    /// before `init`; and where the kernel made no link. The builder is then
    /// as it was. Otherwise the link is added behind those the builder holds.
    pub fn attach(&mut self, probe: &Probe, link: Option<u64>) -> (r: Result<(), BuilderError>)
        ensures
            r == attach_result(old(self)@, probe@.kind, link),
            final(self)@ == after_attach(old(self)@, probe@.kind, link),
    {
        if probe.kind() != self.kind {
            return Err(BuilderError::WrongProbeType { expected: self.kind, found: probe.kind() });
        }
        if self.loaded.is_none() {
            return Err(BuilderError::Uninitialized);
        }
        match link {
            Some(l) => {
                self.links.push(l);
                Ok(())
            },
            None => Err(BuilderError::AttachFailed),
        }
    }

    /// Drops the link of every attached probe and hands them back, oldest
    /// first, for release. The loaded program and the links of its hooks
    /// stay, so a probe attached afterwards runs the same hooks. Never fails.
    pub fn detach(&mut self) -> (r: Result<Vec<u64>, BuilderError>)
        ensures
            r is Ok,
            r->Ok_0@ == old(self)@.links,
            final(self)@ == after_detach(old(self)@),
    {
        let mut released: Vec<u64> = Vec::new();
        released.append(&mut self.links);
        Ok(released)
    }
}

/// A second `init` fails with a usage error and changes nothing: whatever a
/// builder is handed after an `init` that succeeded, it answers that it is
/// already initialized and stays as the first `init` left it.
pub proof fn lemma_init_twice_fails(
    b: BuilderState,
    nmaps: nat,
    nhooks: nat,
    nfilters: nat,
    reply: LoadReply,
    nmaps2: nat,
    nhooks2: nat,
    nfilters2: nat,
    reply2: LoadReply,
)
    requires
        init_result(b, nmaps, nhooks, nfilters, reply) is Ok,
    ensures
        ({
            let first = after_init(b, nmaps, nhooks, nfilters, reply);
            &&& first.loaded == Some(nhooks)
            &&& init_result(first, nmaps2, nhooks2, nfilters2, reply2) == Err::<(), BuilderError>(
                BuilderError::AlreadyInitialized,
            )
            &&& BuilderError::AlreadyInitialized.is_configuration()
            &&& after_init(first, nmaps2, nhooks2, nfilters2, reply2) == first
        }),
{
}

/// An `init` that fails leaves the builder as it was, so that it can be
/// tried again.
pub proof fn lemma_failed_init_changes_nothing(
    b: BuilderState,
    nmaps: nat,
    nhooks: nat,
    nfilters: nat,
    reply: LoadReply,
)
    requires
        init_result(b, nmaps, nhooks, nfilters, reply) is Err,
    ensures
        after_init(b, nmaps, nhooks, nfilters, reply) == b,
{
}

/// A probe of another mechanism is never attached: on every builder,
/// initialized or not, and whatever the kernel did, `attach` fails with the
/// type mismatch, which is a usage error, and makes no link.
pub proof fn lemma_attach_wrong_type_fails(b: BuilderState, probe: ProbeKind, link: Option<u64>)
    requires
        probe != b.kind,
    ensures
        attach_result(b, probe, link) == Err::<(), BuilderError>(
            BuilderError::WrongProbeType { expected: b.kind, found: probe },
        ),
        attach_result(b, probe, link)->Err_0.is_configuration(),
        after_attach(b, probe, link) == b,
{
}

/// A probe of the builder's own mechanism is refused before `init`, with a
/// usage error and no link made.
pub proof fn lemma_attach_before_init_fails(b: BuilderState, link: Option<u64>)
    requires
        b.loaded is None,
    ensures
        attach_result(b, b.kind, link) == Err::<(), BuilderError>(BuilderError::Uninitialized),
        BuilderError::Uninitialized.is_configuration(),
        after_attach(b, b.kind, link) == b,
{
}

/// Detaching twice is detaching once: no link is left after the first
/// `detach`, and the second changes nothing.
pub proof fn lemma_detach_idempotent(b: BuilderState)
    ensures
        after_detach(b).links.len() == 0,
        after_detach(b).loaded == b.loaded,
        after_detach(b).hook_links == b.hook_links,
        after_detach(after_detach(b)) == after_detach(b),
{
}

/// A builder made by `new` is coherent, and `init`, `attach` and `detach`
/// keep it so, whatever the kernel answered.
pub proof fn lemma_coherent(
    b: BuilderState,
    nmaps: nat,
    nhooks: nat,
    nfilters: nat,
    reply: LoadReply,
    probe: ProbeKind,
    link: Option<u64>,
)
    requires
        coherent(b),
    ensures
        coherent(
            BuilderState {
                kind: b.kind,
                loaded: None,
                hook_links: Seq::<u64>::empty(),
                links: Seq::<u64>::empty(),
            },
        ),
        coherent(after_init(b, nmaps, nhooks, nfilters, reply)),
        coherent(after_attach(b, probe, link)),
        coherent(after_detach(b)),
{
}

/// The hooks of a loaded builder are fixed: neither `attach` nor `detach`
/// changes the hook count or the hooks' links, so every probe attached
/// through the builder, before or after a `detach`, runs the same hooks in
/// the same order.
pub proof fn lemma_hooks_fixed(b: BuilderState, probe: ProbeKind, link: Option<u64>)
    ensures
        after_attach(b, probe, link).loaded == b.loaded,
        after_attach(b, probe, link).hook_links == b.hook_links,
        after_detach(b).loaded == b.loaded,
        after_detach(b).hook_links == b.hook_links,
        after_attach(after_detach(b), probe, link).hook_links == b.hook_links,
{
}

/// A builder can attach again after a `detach`: what `attach` answers does
/// not depend on the links the builder holds.
pub proof fn lemma_attach_after_detach(b: BuilderState, probe: ProbeKind, link: Option<u64>)
    ensures
        attach_result(after_detach(b), probe, link) == attach_result(b, probe, link),
{
}

} // verus!
