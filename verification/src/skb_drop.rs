//! The collector of packet drops: it hangs on the trace event that the kernel
//! raises when it frees a dropped packet, and reports the reason of the drop
//! where the kernel gives one.

use vstd::prelude::*;
use crate::compat::{gate, gate_of, Compat, KernelVersion, KernelVersionReq};
use crate::hook::Hook;
use crate::manager::{ManagerError, ProbeManager};
use crate::probe::{kind_of_name, Probe, ProbeError, ProbeKind, ProbeView, Symbol, SymbolKind};

verus! {

/// The trace event the collector attaches to.
pub open spec fn target_name() -> Seq<char> {
    "skb:kfree_skb"@
}

/// The kernel type that holds the reasons of a drop.
pub open spec fn drop_reason_type() -> Seq<char> {
    "enum skb_drop_reason"@
}

/// Drop reasons came with kernel 5.17 and are not a build option: a kernel
/// at or after that version must have them.
pub open spec fn drop_reasons_since_spec() -> KernelVersionReq {
    KernelVersionReq { major: 5, minor: 17 }
}

/// The version that brought drop reasons.
pub fn drop_reasons_since() -> (r: KernelVersionReq)
    ensures
        r == drop_reasons_since_spec(),
{
    KernelVersionReq { major: 5, minor: 17 }
}

/// What the kernel's type information says of the drop reason among the
/// event's parameters.
#[derive(Clone, Copy, Debug, PartialEq, Eq, Structural)]
pub enum OffsetLookup {
    /// The event has the parameter, at this position.
    Found { offset: u32 },
    /// The event has no such parameter.
    NotFound,
    /// The lookup itself failed.
    Failed,
}

/// Why the collector cannot run or register.
#[derive(Clone, Copy, Debug, PartialEq, Eq, Structural)]
pub enum ModuleError {
    /// The trace event cannot be probed on this kernel.
    Target { reason: ProbeError },
    /// The kernel is recent enough to have drop reasons, and has none.
    DropReasonsMissing,
    /// The manager refused the probe.
    ProbeRefused { error: ManagerError },
    /// The manager refused the hook.
    HookRefused { error: ManagerError },
}

/// What `can_run` answers.
pub open spec fn can_run_result(target_known: bool, lookup: OffsetLookup, version: KernelVersion)
    -> Result<Compat, ModuleError> {
    if !target_known {
        Err(ModuleError::Target { reason: ProbeError::UnknownSymbol })
    } else {
        match gate_of(lookup is Found, version, drop_reasons_since_spec()) {
            Ok(c) => Ok(c),
            Err(_) => Err(ModuleError::DropReasonsMissing),
        }
    }
}

/// The trace event's name holds a `:`, so it names an event.
pub proof fn lemma_target_is_event()
    ensures
        kind_of_name(target_name()) == SymbolKind::Event,
{
    reveal_strlit("skb:kfree_skb");
    assert(target_name()[3] == ':');
}

/// The collector of packet drops.
#[derive(Debug)]
pub struct SkbDropModule {}

impl SkbDropModule {
    /// The collector; it holds no state.
    pub fn new() -> (m: SkbDropModule) {
        SkbDropModule {  }
    }

    /// The kernel types whose layout the collector reads.
    pub fn known_kernel_types(&self) -> (r: Option<Vec<&'static str>>)
        ensures
            r is Some,
            r->Some_0@.len() == 1,
            r->Some_0@[0]@ == drop_reason_type(),
    {
        let mut types: Vec<&'static str> = Vec::new();
        types.push("enum skb_drop_reason");
        Some(types)
    }

    /// Decides whether the collector can run on this kernel, given whether
    /// the kernel has the trace event, what the lookup of the drop reason
    /// among the event's parameters gave, and the kernel's version.
    ///
    /// Without the trace event it cannot. With the drop reason it runs in
    /// full. Without it, whether the parameter is absent or the lookup
    /// failed, it cannot run on a kernel at or after 5.17, and runs degraded
    /// on an older one.
    pub fn can_run(&mut self, target_known: bool, lookup: OffsetLookup, version: KernelVersion) -> (r:
        Result<Compat, ModuleError>)
        ensures
            r == can_run_result(target_known, lookup, version),
    {
        match Symbol::from_name("skb:kfree_skb", target_known) {
            Ok(_) => {},
            Err(reason) => {
                return Err(ModuleError::Target { reason });
            },
        }
        let present = match lookup {
            OffsetLookup::Found { .. } => true,
            OffsetLookup::NotFound => false,
            OffsetLookup::Failed => false,
        };
        match gate(present, version, drop_reasons_since()) {
            Ok(c) => Ok(c),
            Err(_) => Err(ModuleError::DropReasonsMissing),
        }
    }

    /// Registers the collector: a raw tracepoint on the trace event, then the
    /// hook that reads the drop reason.
    ///
    /// Without the trace event nothing is registered. Else the probe is
    /// registered behind those the manager has, which the manager never
    /// refuses; the hook follows unless a builder is loaded already, which is
    /// reported as the refused hook, with the probe left registered.
    pub fn init(&mut self, target_known: bool, hook: Hook, probes: &mut ProbeManager) -> (r: Result<
        (),
        ModuleError,
    >)
        requires
            old(probes).wf(),
        ensures
            final(probes).wf(),
            !target_known ==> r == Err::<(), ModuleError>(
                ModuleError::Target { reason: ProbeError::UnknownSymbol },
            ) && final(probes).probes() == old(probes).probes() && final(probes).hooks() == old(
                probes,
            ).hooks(),
            target_known ==> {
                &&& final(probes).probes().len() == old(probes).probes().len() + 1
                &&& final(probes).probes().drop_last() == old(probes).probes()
                &&& final(probes).probes().last()@ == (ProbeView {
                    kind: ProbeKind::RawTracepoint,
                    target: target_name(),
                })
            },
            target_known && old(probes).started() ==> r == Err::<(), ModuleError>(
                ModuleError::HookRefused { error: ManagerError::HooksFrozen },
            ) && final(probes).hooks() == old(probes).hooks(),
            target_known && !old(probes).started() ==> r is Ok && final(probes).hooks() == old(
                probes,
            ).hooks().push(hook),
            final(probes).filters() == old(probes).filters(),
            final(probes).maps() == old(probes).maps(),
            forall|kind: ProbeKind| final(probes).builder(kind) == old(probes).builder(kind),
    {
        let symbol = match Symbol::from_name("skb:kfree_skb", target_known) {
            Ok(symbol) => symbol,
            Err(reason) => {
                return Err(ModuleError::Target { reason });
            },
        };
        proof {
            lemma_target_is_event();
        }
        let probe = match Probe::raw_tracepoint(symbol) {
            Ok(probe) => probe,
            Err(reason) => {
                return Err(ModuleError::Target { reason });
            },
        };
        match probes.register_probe(probe) {
            Ok(_) => {},
            Err(error) => {
                return Err(ModuleError::ProbeRefused { error });
            },
        }
        assert(probes.probes().drop_last() =~= old(probes).probes());
        match probes.register_kernel_hook(hook) {
            Ok(_) => Ok(()),
            Err(error) => Err(ModuleError::HookRefused { error }),
        }
    }
}

} // verus!
