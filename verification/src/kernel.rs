//! The kernel work that loading a builder takes, as data: which steps, and in
//! which order.

use vstd::prelude::*;
use crate::probe::ProbeKind;

verus! {

/// One step of kernel work. Maps, filters and hooks are named by their
/// position in the lists the builder was given.
#[derive(Clone, Copy, Debug, PartialEq, Eq, Structural)]
pub enum KernelOp {
    /// Open the instrumentation object of a mechanism.
    Open { kind: ProbeKind },
    /// Write the number of hooks into the object's read-only configuration.
    SetHookCount { count: usize },
    /// Make the object use an existing map descriptor for its map of that
    /// name, if it declares one.
    ReuseMap { index: usize },
    /// Load the object into the kernel.
    Load,
    /// Get the handle of the loaded program.
    FindProgram,
    /// Patch a filter into its slot of the loaded program.
    PatchFilter { index: usize },
    /// Attach a hook to the loaded program as one more stage.
    InstallHook { index: usize },
}

/// What the kernel answered to the steps of a load.
#[derive(Debug)]
pub enum LoadReply {
    /// The step at this position of the sequence failed; none after it ran.
    Failed { step: usize },
    /// Every step succeeded. The links are those of the hooks, in the order
    /// in which the hooks were installed.
    Loaded { hook_links: Vec<u64> },
}

/// The steps that load a builder, in the order in which they must run: the
/// hook count is written and the shared maps are set before the load, the
/// filters are patched after it, and the hooks are installed last, in the
/// order in which they were registered.
pub open spec fn init_sequence(kind: ProbeKind, nmaps: nat, nfilters: nat, nhooks: nat) -> Seq<
    KernelOp,
> {
    seq![KernelOp::Open { kind }, KernelOp::SetHookCount { count: nhooks as usize }] + Seq::new(
        nmaps,
        |i: int| KernelOp::ReuseMap { index: i as usize },
    ) + seq![KernelOp::Load, KernelOp::FindProgram] + Seq::new(
        nfilters,
        |i: int| KernelOp::PatchFilter { index: i as usize },
    ) + Seq::new(nhooks, |i: int| KernelOp::InstallHook { index: i as usize })
}

/// Where each step of a load stands in its sequence.
pub proof fn lemma_init_sequence_layout(kind: ProbeKind, nmaps: nat, nfilters: nat, nhooks: nat)
    ensures
        ({
            let s = init_sequence(kind, nmaps, nfilters, nhooks);
            &&& s.len() == 4 + nmaps + nfilters + nhooks
            &&& s[0] == (KernelOp::Open { kind })
            &&& s[1] == (KernelOp::SetHookCount { count: nhooks as usize })
            &&& forall|i: int|
                0 <= i < nmaps ==> #[trigger] s[2 + i] == (KernelOp::ReuseMap {
                    index: i as usize,
                })
            &&& s[2 + nmaps as int] == KernelOp::Load
            &&& s[3 + nmaps as int] == KernelOp::FindProgram
            &&& forall|i: int|
                0 <= i < nfilters ==> #[trigger] s[4 + nmaps + i] == (KernelOp::PatchFilter {
                    index: i as usize,
                })
            &&& forall|i: int|
                0 <= i < nhooks ==> #[trigger] s[4 + nmaps + nfilters + i] == (
                KernelOp::InstallHook { index: i as usize })
        }),
{
}

/// Every mechanism reuses every shared map, and does so before its load: in
/// the loads of any two mechanisms, the map at a given position of the list
/// is reused at the same step, ahead of the load.
pub proof fn lemma_maps_reused_before_load(
    a: ProbeKind,
    b: ProbeKind,
    nmaps: nat,
    nfilters: nat,
    nhooks: nat,
    i: int,
)
    requires
        0 <= i < nmaps,
    ensures
        ({
            let sa = init_sequence(a, nmaps, nfilters, nhooks);
            let sb = init_sequence(b, nmaps, nfilters, nhooks);
            &&& sa[2 + i] == (KernelOp::ReuseMap { index: i as usize })
            &&& sb[2 + i] == sa[2 + i]
            &&& 2 + i < 2 + nmaps < sa.len() == sb.len()
            &&& sa[2 + nmaps as int] == KernelOp::Load
            &&& sb[2 + nmaps as int] == KernelOp::Load
        }),
{
    lemma_init_sequence_layout(a, nmaps, nfilters, nhooks);
    lemma_init_sequence_layout(b, nmaps, nfilters, nhooks);
}

/// Hooks run in the order in which they were registered: in every load, the
/// hook registered earlier is installed earlier, each hook is installed
/// exactly where its position says, and the hook count is written before the
/// load while every hook is installed after it.
pub proof fn lemma_hooks_in_registration_order(
    kind: ProbeKind,
    nmaps: nat,
    nfilters: nat,
    nhooks: nat,
    i: int,
    j: int,
)
    requires
        0 <= i < j < nhooks,
    ensures
        ({
            let s = init_sequence(kind, nmaps, nfilters, nhooks);
            let load = 2 + nmaps as int;
            let at_i = 4 + nmaps + nfilters + i;
            let at_j = 4 + nmaps + nfilters + j;
            &&& s[1] == (KernelOp::SetHookCount { count: nhooks as usize })
            &&& s[load] == KernelOp::Load
            &&& 1 < load < at_i < at_j < s.len()
            &&& s[at_i] == (KernelOp::InstallHook { index: i as usize })
            &&& s[at_j] == (KernelOp::InstallHook { index: j as usize })
        }),
{
    lemma_init_sequence_layout(kind, nmaps, nfilters, nhooks);
}

/// Builds the steps that load a builder.
pub fn init_ops(kind: ProbeKind, nmaps: usize, nfilters: usize, nhooks: usize) -> (ops: Vec<
    KernelOp,
>)
    ensures
        ops@ == init_sequence(kind, nmaps as nat, nfilters as nat, nhooks as nat),
{
    let mut ops: Vec<KernelOp> = Vec::new();
    ops.push(KernelOp::Open { kind });
    ops.push(KernelOp::SetHookCount { count: nhooks });
    let ghost head = seq![KernelOp::Open { kind }, KernelOp::SetHookCount { count: nhooks }];
    assert(ops@ =~= head);
    let mut i: usize = 0;
    while i < nmaps
        invariant
            i <= nmaps,
            ops@ == head + Seq::new(i as nat, |k: int| KernelOp::ReuseMap { index: k as usize }),
        decreases nmaps - i,
    {
        ops.push(KernelOp::ReuseMap { index: i });
        i += 1;
        assert(ops@ =~= head + Seq::new(
            i as nat,
            |k: int| KernelOp::ReuseMap { index: k as usize },
        ));
    }
    ops.push(KernelOp::Load);
    ops.push(KernelOp::FindProgram);
    let ghost mid = head + Seq::new(
        nmaps as nat,
        |k: int| KernelOp::ReuseMap { index: k as usize },
    ) + seq![KernelOp::Load, KernelOp::FindProgram];
    assert(ops@ =~= mid);
    let mut i: usize = 0;
    while i < nfilters
        invariant
            i <= nfilters,
            ops@ == mid + Seq::new(
                i as nat,
                |k: int| KernelOp::PatchFilter { index: k as usize },
            ),
        decreases nfilters - i,
    {
        ops.push(KernelOp::PatchFilter { index: i });
        i += 1;
        assert(ops@ =~= mid + Seq::new(
            i as nat,
            |k: int| KernelOp::PatchFilter { index: k as usize },
        ));
    }
    let ghost tail = mid + Seq::new(
        nfilters as nat,
        |k: int| KernelOp::PatchFilter { index: k as usize },
    );
    let mut i: usize = 0;
    while i < nhooks
        invariant
            i <= nhooks,
            ops@ == tail + Seq::new(
                i as nat,
                |k: int| KernelOp::InstallHook { index: k as usize },
            ),
        decreases nhooks - i,
    {
        ops.push(KernelOp::InstallHook { index: i });
        i += 1;
        assert(ops@ =~= tail + Seq::new(
            i as nat,
            |k: int| KernelOp::InstallHook { index: k as usize },
        ));
    }
    ops
}

} // verus!
