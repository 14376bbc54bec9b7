//! The coordinator: it collects probes, hooks, filters and shared maps from
//! the collectors, then drives one builder per mechanism through its life.

use vstd::prelude::*;
use crate::builder::{
    after_attach,
    after_detach,
    after_init,
    attach_result,
    coherent,
    init_result,
    BuilderError,
    BuilderState,
    ProbeBuilder,
};
use crate::hook::{Filter, Hook};
use crate::kernel::{init_sequence, KernelOp, LoadReply};
use crate::probe::{Probe, ProbeKind};

verus! {

/// Why the manager refused an operation.
#[derive(Clone, Copy, Debug, PartialEq, Eq, Structural)]
pub enum ManagerError {
    /// A hook was registered after a builder was loaded: the hook count is
    /// part of every loaded program and cannot change any more.
    HooksFrozen,
    /// The builder of this mechanism failed.
    Builder { kind: ProbeKind, error: BuilderError },
}

impl ManagerError {
    /// A usage error, as opposed to a failure of the kernel.
    pub open spec fn is_configuration(self) -> bool {
        match self {
            ManagerError::HooksFrozen => true,
            ManagerError::Builder { error, .. } => error.is_configuration(),
        }
    }

    /// Tells a usage error from a failure of the kernel.
    pub fn configuration(&self) -> (b: bool)
        ensures
            b == self.is_configuration(),
    {
        match self {
            ManagerError::HooksFrozen => true,
            ManagerError::Builder { error, .. } => error.configuration(),
        }
    }
}

/// Whether a probe of this mechanism is among the registered ones.
pub open spec fn has_pending(probes: Seq<Probe>, kind: ProbeKind) -> bool {
    exists|i: int| 0 <= i < probes.len() && (#[trigger] probes[i])@.kind == kind
}

/// A builder in the middle of attaching its probes: what it has become, and
/// whether an attachment has failed.
pub struct AttachRun {
    pub state: BuilderState,
    pub result: Result<(), BuilderError>,
}

/// The link the kernel made for the probe registered at position `i`, if it
/// made one.
pub open spec fn link_for(links: Seq<Option<u64>>, i: int) -> Option<u64> {
    if 0 <= i < links.len() {
        links[i]
    } else {
        None
    }
}

/// Attaches to builder `b`, in registration order, those of the first `n`
/// probes that are of its mechanism, and stops at the first that fails.
pub open spec fn attach_run(b: BuilderState, probes: Seq<Probe>, links: Seq<Option<u64>>, n: nat)
    -> AttachRun
    decreases n,
{
    if n == 0 {
        AttachRun { state: b, result: Ok(()) }
    } else {
        let before = attach_run(b, probes, links, (n - 1) as nat);
        if before.result is Err || probes[n - 1]@.kind != b.kind {
            before
        } else {
            let link = link_for(links, n - 1);
            AttachRun {
                state: after_attach(before.state, b.kind, link),
                result: attach_result(before.state, b.kind, link),
            }
        }
    }
}

/// How many of the first `n` probes are of a mechanism.
pub open spec fn count_of(probes: Seq<Probe>, kind: ProbeKind, n: nat) -> nat
    decreases n,
{
    if n == 0 {
        0
    } else if probes[n - 1]@.kind == kind {
        count_of(probes, kind, (n - 1) as nat) + 1
    } else {
        count_of(probes, kind, (n - 1) as nat)
    }
}

/// Where the kernel made a link for every probe of a loaded builder's
/// mechanism, attaching them succeeds, and the builder holds one more link
/// for each of them.
pub proof fn lemma_attach_run_complete(
    b: BuilderState,
    probes: Seq<Probe>,
    links: Seq<Option<u64>>,
    n: nat,
)
    requires
        b.loaded is Some,
        n <= probes.len(),
        forall|i: int|
            0 <= i < n && (#[trigger] probes[i])@.kind == b.kind ==> link_for(links, i) is Some,
    ensures
        attach_run(b, probes, links, n).result is Ok,
        attach_run(b, probes, links, n).state.kind == b.kind,
        attach_run(b, probes, links, n).state.loaded == b.loaded,
        attach_run(b, probes, links, n).state.links.len() == b.links.len() + count_of(
            probes,
            b.kind,
            n,
        ),
    decreases n,
{
    if n > 0 {
        lemma_attach_run_complete(b, probes, links, (n - 1) as nat);
        if probes[n - 1]@.kind == b.kind {
            assert(link_for(links, n - 1) is Some);
        }
    }
}

/// Attaching never unloads a builder nor drops a link: whatever the kernel
/// answered, the builder keeps its mechanism, its load, its hooks' links
/// and, in front, the probes' links it had.
pub proof fn lemma_attach_run_extends(
    b: BuilderState,
    probes: Seq<Probe>,
    links: Seq<Option<u64>>,
    n: nat,
)
    requires
        n <= probes.len(),
    ensures
        attach_run(b, probes, links, n).state.kind == b.kind,
        attach_run(b, probes, links, n).state.loaded == b.loaded,
        attach_run(b, probes, links, n).state.hook_links == b.hook_links,
        b.links.is_prefix_of(attach_run(b, probes, links, n).state.links),
        attach_run(b, probes, links, n).state.links.len() <= b.links.len() + count_of(
            probes,
            b.kind,
            n,
        ),
    decreases n,
{
    if n > 0 {
        lemma_attach_run_extends(b, probes, links, (n - 1) as nat);
    }
}

/// What a failure of a builder becomes at the manager: the same failure, with
/// the mechanism it belongs to.
pub open spec fn in_context(kind: ProbeKind, r: Result<(), BuilderError>) -> Result<
    (),
    ManagerError,
> {
    match r {
        Ok(_) => Ok(()),
        Err(error) => Err(ManagerError::Builder { kind, error }),
    }
}

/// The builder of a mechanism before anything is loaded.
pub open spec fn fresh(kind: ProbeKind) -> BuilderState {
    BuilderState {
        kind,
        loaded: None,
        hook_links: Seq::<u64>::empty(),
        links: Seq::<u64>::empty(),
    }
}

/// What finalizing a mechanism answers.
pub open spec fn finalize_result(
    held: Option<BuilderState>,
    kind: ProbeKind,
    probes: Seq<Probe>,
    nmaps: nat,
    nhooks: nat,
    nfilters: nat,
    reply: LoadReply,
    links: Seq<Option<u64>>,
) -> Result<(), ManagerError> {
    if held is Some {
        Err(ManagerError::Builder { kind, error: BuilderError::AlreadyInitialized })
    } else if !has_pending(probes, kind) {
        Ok(())
    } else if init_result(fresh(kind), nmaps, nhooks, nfilters, reply) is Err {
        in_context(kind, init_result(fresh(kind), nmaps, nhooks, nfilters, reply))
    } else {
        in_context(
            kind,
            attach_run(
                after_init(fresh(kind), nmaps, nhooks, nfilters, reply),
                probes,
                links,
                probes.len(),
            ).result,
        )
    }
}

/// The builder the manager holds for a mechanism after finalizing it: the one
/// it held, if any; none where no probe is pending or the load failed; else
/// the loaded builder with the links of the probes that were attached.
pub open spec fn finalize_builder(
    held: Option<BuilderState>,
    kind: ProbeKind,
    probes: Seq<Probe>,
    nmaps: nat,
    nhooks: nat,
    nfilters: nat,
    reply: LoadReply,
    links: Seq<Option<u64>>,
) -> Option<BuilderState> {
    if held is Some {
        held
    } else if !has_pending(probes, kind) {
        None
    } else if init_result(fresh(kind), nmaps, nhooks, nfilters, reply) is Err {
        None
    } else {
        Some(
            attach_run(
                after_init(fresh(kind), nmaps, nhooks, nfilters, reply),
                probes,
                links,
                probes.len(),
            ).state,
        )
    }
}

/// Where attaching succeeds, the builder has gained exactly one link for
/// each probe of its mechanism.
pub proof fn lemma_attach_run_counts(
    b: BuilderState,
    probes: Seq<Probe>,
    links: Seq<Option<u64>>,
    n: nat,
)
    requires
        n <= probes.len(),
        attach_run(b, probes, links, n).result is Ok,
    ensures
        attach_run(b, probes, links, n).state.links.len() == b.links.len() + count_of(
            probes,
            b.kind,
            n,
        ),
    decreases n,
{
    if n > 0 {
        lemma_attach_run_extends(b, probes, links, (n - 1) as nat);
        lemma_attach_run_counts(b, probes, links, (n - 1) as nat);
    }
}

/// A mechanism that is finalized without error, with probes registered for
/// it, has its builder: loaded with the hook count, holding the link of each
/// hook as the kernel gave them, and exactly one link for each registered
/// probe of the mechanism.
pub proof fn lemma_finalize_link_count(
    kind: ProbeKind,
    probes: Seq<Probe>,
    nmaps: nat,
    nhooks: nat,
    nfilters: nat,
    reply: LoadReply,
    links: Seq<Option<u64>>,
)
    requires
        has_pending(probes, kind),
        finalize_result(None, kind, probes, nmaps, nhooks, nfilters, reply, links) is Ok,
    ensures
        ({
            let b = finalize_builder(None, kind, probes, nmaps, nhooks, nfilters, reply, links);
            &&& b is Some
            &&& b->Some_0.kind == kind
            &&& b->Some_0.loaded == Some(nhooks)
            &&& reply is Loaded
            &&& b->Some_0.hook_links == reply->hook_links@
            &&& b->Some_0.hook_links.len() == nhooks
            &&& b->Some_0.links.len() == count_of(probes, kind, probes.len())
        }),
{
    let loaded = after_init(fresh(kind), nmaps, nhooks, nfilters, reply);
    lemma_attach_run_extends(loaded, probes, links, probes.len());
    lemma_attach_run_counts(loaded, probes, links, probes.len());
}

/// Finalizing a mechanism again changes nothing: it fails with a usage
/// error and the builder stays as it was.
pub proof fn lemma_finalize_twice_fails(
    held: BuilderState,
    kind: ProbeKind,
    probes: Seq<Probe>,
    nmaps: nat,
    nhooks: nat,
    nfilters: nat,
    reply: LoadReply,
    links: Seq<Option<u64>>,
)
    ensures
        finalize_result(Some(held), kind, probes, nmaps, nhooks, nfilters, reply, links) is Err,
        finalize_result(
            Some(held),
            kind,
            probes,
            nmaps,
            nhooks,
            nfilters,
            reply,
            links,
        )->Err_0.is_configuration(),
        finalize_builder(Some(held), kind, probes, nmaps, nhooks, nfilters, reply, links) == Some(
            held,
        ),
{
}

/// Tearing down twice is tearing down once: no builder holds a probe's link
/// after the first teardown, and the second changes nothing.
pub proof fn lemma_teardown_idempotent(b: Option<BuilderState>)
    ensures
        links_of(detached(b)).len() == 0,
        detached(detached(b)) == detached(b),
{
}

/// The links of the probes attached to a builder, if there is one.
pub open spec fn links_of(b: Option<BuilderState>) -> Seq<u64> {
    match b {
        Some(s) => s.links,
        None => Seq::<u64>::empty(),
    }
}

/// A builder after teardown, if there is one.
pub open spec fn detached(b: Option<BuilderState>) -> Option<BuilderState> {
    match b {
        Some(s) => Some(after_detach(s)),
        None => None,
    }
}

/// The coordinator of all builders.
#[derive(Debug)]
pub struct ProbeManager {
    probes: Vec<Probe>,
    hooks: Vec<Hook>,
    filters: Vec<Filter>,
    map_fds: Vec<(String, i32)>,
    kprobe: Option<ProbeBuilder>,
    tracepoint: Option<ProbeBuilder>,
    raw_tracepoint: Option<ProbeBuilder>,
}

/// A builder held for a mechanism is of that mechanism and is loaded, with
/// one link per hook.
pub open spec fn slot_ok(kind: ProbeKind, b: Option<BuilderState>) -> bool {
    b is Some ==> b->Some_0.kind == kind && b->Some_0.loaded is Some && coherent(b->Some_0)
}

spec fn state_of(b: Option<ProbeBuilder>) -> Option<BuilderState> {
    match b {
        Some(b) => Some(b@),
        None => None,
    }
}

impl ProbeManager {
    /// Every builder the manager holds is of the mechanism it is held for,
    /// and is loaded, with one link per hook.
    pub closed spec fn wf(&self) -> bool {
        &&& slot_ok(ProbeKind::Kprobe, state_of(self.kprobe))
        &&& slot_ok(ProbeKind::Tracepoint, state_of(self.tracepoint))
        &&& slot_ok(ProbeKind::RawTracepoint, state_of(self.raw_tracepoint))
    }

    /// The registered probes, in registration order.
    pub closed spec fn probes(&self) -> Seq<Probe> {
        self.probes@
    }

    /// The registered hooks, in registration order.
    pub closed spec fn hooks(&self) -> Seq<Hook> {
        self.hooks@
    }

    /// The registered filters.
    pub closed spec fn filters(&self) -> Seq<Filter> {
        self.filters@
    }

    /// The shared maps, each as its name and descriptor.
    pub closed spec fn maps(&self) -> Seq<(String, i32)> {
        self.map_fds@
    }

    /// The builder held for a mechanism, if one was created.
    pub closed spec fn builder(&self, kind: ProbeKind) -> Option<BuilderState> {
        match kind {
            ProbeKind::Kprobe => state_of(self.kprobe),
            ProbeKind::Tracepoint => state_of(self.tracepoint),
            ProbeKind::RawTracepoint => state_of(self.raw_tracepoint),
        }
    }

    /// Whether any builder has been loaded.
    pub open spec fn started(&self) -> bool {
        exists|kind: ProbeKind| (#[trigger] self.builder(kind)) is Some
    }

    /// The builder held for a mechanism, if one was created: it is of that
    /// mechanism, and loaded, with one link per hook.
    pub fn get_builder(&self, kind: ProbeKind) -> (r: Option<&ProbeBuilder>)
        requires
            self.wf(),
        ensures
            r is Some == self.builder(kind) is Some,
            r is Some ==> r->Some_0@ == self.builder(kind)->Some_0,
            slot_ok(kind, self.builder(kind)),
    {
        proof {
            assert(slot_ok(kind, self.builder(kind)));
        }
        match kind {
            ProbeKind::Kprobe => self.kprobe.as_ref(),
            ProbeKind::Tracepoint => self.tracepoint.as_ref(),
            ProbeKind::RawTracepoint => self.raw_tracepoint.as_ref(),
        }
    }

    /// A manager with nothing registered and no builder.
    pub fn new() -> (m: ProbeManager)
        ensures
            m.wf(),
            m.probes().len() == 0,
            m.hooks().len() == 0,
            m.filters().len() == 0,
            m.maps().len() == 0,
            forall|kind: ProbeKind| m.builder(kind) is None,
    {
        ProbeManager {
            probes: Vec::new(),
            hooks: Vec::new(),
            filters: Vec::new(),
            map_fds: Vec::new(),
            kprobe: None,
            tracepoint: None,
            raw_tracepoint: None,
        }
    }

    /// Records a probe behind those already registered. Nothing is attached
    /// yet. Never fails.
    pub fn register_probe(&mut self, probe: Probe) -> (r: Result<(), ManagerError>)
        requires
            old(self).wf(),
        ensures
            final(self).wf(),
            r is Ok,
            final(self).probes() == old(self).probes().push(probe),
            final(self).hooks() == old(self).hooks(),
            final(self).filters() == old(self).filters(),
            final(self).maps() == old(self).maps(),
            forall|kind: ProbeKind| final(self).builder(kind) == old(self).builder(kind),
    {
        self.probes.push(probe);
        Ok(())
    }

    /// Records a hook behind those already registered, unless a builder has
    /// been loaded: then it fails and changes nothing.
    pub fn register_kernel_hook(&mut self, hook: Hook) -> (r: Result<(), ManagerError>)
        requires
            old(self).wf(),
        ensures
            final(self).wf(),
            old(self).started() ==> r == Err::<(), ManagerError>(ManagerError::HooksFrozen)
                && final(self).hooks() == old(self).hooks(),
            !old(self).started() ==> r is Ok && final(self).hooks() == old(self).hooks().push(
                hook,
            ),
            final(self).probes() == old(self).probes(),
            final(self).filters() == old(self).filters(),
            final(self).maps() == old(self).maps(),
            forall|kind: ProbeKind| final(self).builder(kind) == old(self).builder(kind),
    {
        if self.kprobe.is_some() || self.tracepoint.is_some() || self.raw_tracepoint.is_some() {
            proof {
                if self.kprobe is Some {
                    assert(self.builder(ProbeKind::Kprobe) is Some);
                } else if self.tracepoint is Some {
                    assert(self.builder(ProbeKind::Tracepoint) is Some);
                } else {
                    assert(self.builder(ProbeKind::RawTracepoint) is Some);
                }
            }
            return Err(ManagerError::HooksFrozen);
        }
        proof {
            assert forall|kind: ProbeKind| self.builder(kind) is None by {}
        }
        self.hooks.push(hook);
        Ok(())
    }

    /// Records a filter. Filters go by the slot they name, not by order.
    pub fn register_filter(&mut self, filter: Filter)
        requires
            old(self).wf(),
        ensures
            final(self).wf(),
            final(self).filters() == old(self).filters().push(filter),
            final(self).probes() == old(self).probes(),
            final(self).hooks() == old(self).hooks(),
            final(self).maps() == old(self).maps(),
            forall|kind: ProbeKind| final(self).builder(kind) == old(self).builder(kind),
    {
        self.filters.push(filter);
    }

    /// Records a shared map: every builder loaded from now on reuses this
    /// descriptor for its map of that name.
    pub fn register_map(&mut self, name: String, fd: i32)
        requires
            old(self).wf(),
        ensures
            final(self).wf(),
            final(self).maps() == old(self).maps().push((name, fd)),
            final(self).probes() == old(self).probes(),
            final(self).hooks() == old(self).hooks(),
            final(self).filters() == old(self).filters(),
            forall|kind: ProbeKind| final(self).builder(kind) == old(self).builder(kind),
    {
        self.map_fds.push((name, fd));
    }
    /// The registered probes, in registration order.
    pub fn pending(&self) -> (r: &Vec<Probe>)
        ensures
            r@ == self.probes(),
    {
        &self.probes
    }

    /// The registered hooks, in registration order.
    pub fn registered_hooks(&self) -> (r: &Vec<Hook>)
        ensures
            r@ == self.hooks(),
    {
        &self.hooks
    }

    /// The registered filters.
    pub fn registered_filters(&self) -> (r: &Vec<Filter>)
        ensures
            r@ == self.filters(),
    {
        &self.filters
    }

    /// The shared maps, each as its name and descriptor.
    pub fn shared_maps(&self) -> (r: &Vec<(String, i32)>)
        ensures
            r@ == self.maps(),
    {
        &self.map_fds
    }

    /// Whether a probe of this mechanism is registered.
    pub fn is_pending(&self, kind: ProbeKind) -> (b: bool)
        ensures
            b == has_pending(self.probes(), kind),
    {
        let mut i: usize = 0;
        while i < self.probes.len()
            invariant
                i <= self.probes.len(),
                forall|j: int| 0 <= j < i ==> (#[trigger] self.probes@[j])@.kind != kind,
            decreases self.probes.len() - i,
        {
            if self.probes[i].kind() == kind {
                return true;
            }
            i += 1;
        }
        false
    }

    /// The positions, in registration order, of the registered probes of a
    /// mechanism: those that finalizing it attaches, in that order.
    pub fn pending_of(&self, kind: ProbeKind) -> (r: Vec<usize>)
        ensures
            forall|a: int, b: int| 0 <= a < b < r@.len() ==> r@[a] < r@[b],
            forall|a: int| 0 <= a < r@.len() ==> #[trigger] r@[a] < self.probes().len(),
            forall|a: int|
                0 <= a < r@.len() ==> (#[trigger] self.probes()[r@[a] as int])@.kind == kind,
            forall|i: int|
                0 <= i < self.probes().len() && (#[trigger] self.probes()[i])@.kind == kind
                    ==> r@.contains(i as usize),
    {
        let mut r: Vec<usize> = Vec::new();
        let mut i: usize = 0;
        while i < self.probes.len()
            invariant
                i <= self.probes.len(),
                forall|a: int, b: int| 0 <= a < b < r@.len() ==> r@[a] < r@[b],
                forall|a: int| 0 <= a < r@.len() ==> #[trigger] r@[a] < i,
                forall|a: int|
                    0 <= a < r@.len() ==> (#[trigger] self.probes@[r@[a] as int])@.kind == kind,
                forall|j: int|
                    0 <= j < i && (#[trigger] self.probes@[j])@.kind == kind ==> r@.contains(
                        j as usize,
                    ),
            decreases self.probes.len() - i,
        {
            if self.probes[i].kind() == kind {
                let ghost before = r@;
                r.push(i);
                proof {
                    assert forall|j: int|
                        0 <= j < i + 1 && (#[trigger] self.probes@[j])@.kind == kind implies r@.contains(
                        j as usize,
                    ) by {
                        if j < i {
                            let a = choose|a: int| 0 <= a < before.len() && before[a] == j as usize;
                            assert(r@[a] == j as usize);
                        } else {
                            assert(r@[r@.len() - 1] == j as usize);
                        }
                    }
                }
            }
            i += 1;
        }
        r
    }

    /// The kernel steps that finalizing a mechanism starts with, in the order
    /// in which they must run: the load of its builder, with every shared
    /// map, every hook and every filter registered so far. No step where no
    /// probe of the mechanism is registered; refused where the mechanism has
    /// its builder already.
    pub fn load_plan(&self, kind: ProbeKind) -> (r: Result<Vec<KernelOp>, ManagerError>)
        requires
            self.wf(),
        ensures
            self.builder(kind) is Some ==> r == Err::<Vec<KernelOp>, ManagerError>(
                ManagerError::Builder { kind, error: BuilderError::AlreadyInitialized },
            ),
            self.builder(kind) is None ==> r is Ok && r->Ok_0@ == (if has_pending(
                self.probes(),
                kind,
            ) {
                init_sequence(kind, self.maps().len(), self.filters().len(), self.hooks().len())
            } else {
                Seq::<KernelOp>::empty()
            }),
    {
        if self.get_builder(kind).is_some() {
            return Err(ManagerError::Builder { kind, error: BuilderError::AlreadyInitialized });
        }
        if !self.is_pending(kind) {
            return Ok(Vec::new());
        }
        let b = ProbeBuilder::new(kind);
        match b.init_plan(&self.map_fds, &self.hooks, &self.filters) {
            Ok(ops) => Ok(ops),
            Err(error) => Err(ManagerError::Builder { kind, error }),
        }
    }

    fn put(&mut self, kind: ProbeKind, b: ProbeBuilder)
        requires
            old(self).wf(),
            b@.kind == kind,
            b@.loaded is Some,
            coherent(b@),
        ensures
            final(self).wf(),
            final(self).builder(kind) == Some(b@),
            forall|k: ProbeKind| k != kind ==> final(self).builder(k) == old(self).builder(k),
            final(self).probes() == old(self).probes(),
            final(self).hooks() == old(self).hooks(),
            final(self).filters() == old(self).filters(),
            final(self).maps() == old(self).maps(),
    {
        match kind {
            ProbeKind::Kprobe => {
                self.kprobe = Some(b);
            },
            ProbeKind::Tracepoint => {
                self.tracepoint = Some(b);
            },
            ProbeKind::RawTracepoint => {
                self.raw_tracepoint = Some(b);
            },
        }
    }

    /// Finalizes one mechanism, given what the kernel answered to its load
    /// and, by position of the probe, the link it made for each registered
    /// probe of the mechanism.
    ///
    /// Where the mechanism has its builder already, this fails and changes
    /// nothing. Where no probe of the mechanism is registered, nothing is
    /// done. Else a builder is created and initialized with every shared
    /// map, hook and filter registered so far; where that fails no builder is
    /// kept. Then each registered probe of the mechanism is attached, in
    /// registration order, up to the first that fails; the builder is kept
    /// with the links made so far. A failure comes back with the mechanism
    /// it belongs to. The builders of the other mechanisms, and everything
    /// registered, stay as they were.
    pub fn finalize_kind(&mut self, kind: ProbeKind, reply: LoadReply, links: &Vec<Option<u64>>) -> (r:
        Result<(), ManagerError>)
        requires
            old(self).wf(),
        ensures
            final(self).wf(),
            r == finalize_result(
                old(self).builder(kind),
                kind,
                old(self).probes(),
                old(self).maps().len(),
                old(self).hooks().len(),
                old(self).filters().len(),
                reply,
                links@,
            ),
            final(self).builder(kind) == finalize_builder(
                old(self).builder(kind),
                kind,
                old(self).probes(),
                old(self).maps().len(),
                old(self).hooks().len(),
                old(self).filters().len(),
                reply,
                links@,
            ),
            forall|k: ProbeKind| k != kind ==> final(self).builder(k) == old(self).builder(k),
            final(self).probes() == old(self).probes(),
            final(self).hooks() == old(self).hooks(),
            final(self).filters() == old(self).filters(),
            final(self).maps() == old(self).maps(),
    {
        if self.get_builder(kind).is_some() {
            return Err(ManagerError::Builder { kind, error: BuilderError::AlreadyInitialized });
        }
        if !self.is_pending(kind) {
            return Ok(());
        }
        let mut b = ProbeBuilder::new(kind);
        match b.init(&self.map_fds, &self.hooks, &self.filters, reply) {
            Ok(_) => {},
            Err(error) => {
                return Err(ManagerError::Builder { kind, error });
            },
        }
        let ghost loaded = b@;
        let mut res: Result<(), BuilderError> = Ok(());
        let mut i: usize = 0;
        while i < self.probes.len()
            invariant
                i <= self.probes.len(),
                loaded.kind == kind,
                b@.kind == kind,
                b@.loaded is Some,
                coherent(b@),
                b@ == attach_run(loaded, self.probes@, links@, i as nat).state,
                res == attach_run(loaded, self.probes@, links@, i as nat).result,
            decreases self.probes.len() - i,
        {
            if res.is_ok() && self.probes[i].kind() == kind {
                let link: Option<u64> = if i < links.len() {
                    links[i]
                } else {
                    None
                };
                res = b.attach(&self.probes[i], link);
            }
            i += 1;
        }
        self.put(kind, b);
        match res {
            Ok(_) => Ok(()),
            Err(error) => Err(ManagerError::Builder { kind, error }),
        }
    }

    /// Tears down: every builder drops the links of its probes, which are
    /// handed back for release, those of the kprobe builder first, then the
    /// tracepoint builder's, then the raw tracepoint builder's. The builders
    /// stay loaded, with their hooks. Never fails, whether or not anything
    /// was attached.
    pub fn detach(&mut self) -> (r: Result<Vec<u64>, ManagerError>)
        requires
            old(self).wf(),
        ensures
            final(self).wf(),
            r is Ok,
            r->Ok_0@ == links_of(old(self).builder(ProbeKind::Kprobe)) + links_of(
                old(self).builder(ProbeKind::Tracepoint),
            ) + links_of(old(self).builder(ProbeKind::RawTracepoint)),
            forall|kind: ProbeKind| final(self).builder(kind) == detached(old(self).builder(kind)),
            final(self).probes() == old(self).probes(),
            final(self).hooks() == old(self).hooks(),
            final(self).filters() == old(self).filters(),
            final(self).maps() == old(self).maps(),
    {
        let mut released: Vec<u64> = Vec::new();
        detach_slot(&mut self.kprobe, &mut released);
        detach_slot(&mut self.tracepoint, &mut released);
        detach_slot(&mut self.raw_tracepoint, &mut released);
        assert(released@ =~= links_of(old(self).builder(ProbeKind::Kprobe)) + links_of(
            old(self).builder(ProbeKind::Tracepoint),
        ) + links_of(old(self).builder(ProbeKind::RawTracepoint)));
        Ok(released)
    }
}

fn detach_slot(slot: &mut Option<ProbeBuilder>, released: &mut Vec<u64>)
    ensures
        state_of(*final(slot)) == detached(state_of(*old(slot))),
        final(released)@ == old(released)@ + links_of(state_of(*old(slot))),
{
    match slot.take() {
        Some(b) => {
            let mut b = b;
            match b.detach() {
                Ok(links) => {
                    let mut links = links;
                    released.append(&mut links);
                },
                Err(_) => {},
            }
            *slot = Some(b);
        },
        None => {
            assert(released@ =~= old(released)@ + Seq::<u64>::empty());
        },
    }
}

} // verus!
