use retis::builder::BuilderError;
use retis::compat::{gate, Compat, FeatureMissing, KernelVersion, KernelVersionReq};
use retis::hook::{Filter, Hook};
use retis::kernel::{KernelOp, LoadReply};
use retis::manager::{ManagerError, ProbeManager};
use retis::probe::{Probe, ProbeError, ProbeKind, Symbol};
use retis::skb_drop::{drop_reasons_since, ModuleError, OffsetLookup, SkbDropModule};

fn kp(name: &str) -> Probe {
    Probe::kprobe(Symbol::from_name(name, true).unwrap()).unwrap()
}

fn raw(name: &str) -> Probe {
    Probe::raw_tracepoint(Symbol::from_name(name, true).unwrap()).unwrap()
}

fn ok_load(hook_links: Vec<u64>) -> LoadReply {
    LoadReply::Loaded { hook_links }
}

fn version(major: u32, minor: u32) -> KernelVersion {
    KernelVersion { major, minor, patch: 0 }
}

#[test]
fn one_kprobe_end_to_end() {
    let mut m = ProbeManager::new();
    assert_eq!(m.register_probe(kp("kfree_skb_reason")), Ok(()));
    assert!(m.get_builder(ProbeKind::Kprobe).is_none());
    assert_eq!(
        m.load_plan(ProbeKind::Kprobe),
        Ok(vec![
            KernelOp::Open { kind: ProbeKind::Kprobe },
            KernelOp::SetHookCount { count: 0 },
            KernelOp::Load,
            KernelOp::FindProgram,
        ])
    );
    assert_eq!(m.pending_of(ProbeKind::Kprobe), vec![0]);
    assert_eq!(m.finalize_kind(ProbeKind::Kprobe, ok_load(Vec::new()), &vec![Some(100)]), Ok(()));
    let b = m.get_builder(ProbeKind::Kprobe).unwrap();
    assert!(b.is_initialized());
    assert_eq!(b.link_count(), 1);
    assert_eq!(m.detach(), Ok(vec![100]));
    assert_eq!(m.get_builder(ProbeKind::Kprobe).unwrap().link_count(), 0);
}

#[test]
fn two_kprobes_share_one_builder() {
    let mut m = ProbeManager::new();
    m.register_probe(kp("kfree_skb_reason")).unwrap();
    m.register_probe(kp("consume_skb")).unwrap();
    assert_eq!(m.pending().len(), 2);
    assert_eq!(
        m.finalize_kind(ProbeKind::Kprobe, ok_load(Vec::new()), &vec![Some(1), Some(2)]),
        Ok(())
    );
    assert_eq!(m.get_builder(ProbeKind::Kprobe).unwrap().links(), &vec![1, 2]);
    assert!(m.get_builder(ProbeKind::Tracepoint).is_none());
    assert!(m.get_builder(ProbeKind::RawTracepoint).is_none());
    assert_eq!(m.detach(), Ok(vec![1, 2]));
    assert_eq!(m.get_builder(ProbeKind::Kprobe).unwrap().link_count(), 0);
    assert_eq!(m.detach(), Ok(Vec::new()));
}

#[test]
fn two_kprobes_hold_two_links_whatever_the_hooks() {
    let mut m = ProbeManager::new();
    m.register_kernel_hook(Hook::from_bytes(vec![1])).unwrap();
    m.register_kernel_hook(Hook::from_bytes(vec![2])).unwrap();
    m.register_kernel_hook(Hook::from_bytes(vec![3])).unwrap();
    m.register_probe(kp("kfree_skb_reason")).unwrap();
    m.register_probe(kp("consume_skb")).unwrap();
    assert_eq!(
        m.finalize_kind(ProbeKind::Kprobe, ok_load(vec![7, 8, 9]), &vec![Some(1), Some(2)]),
        Ok(())
    );
    let b = m.get_builder(ProbeKind::Kprobe).unwrap();
    assert_eq!(b.link_count(), 2);
    assert_eq!(b.links(), &vec![1, 2]);
    assert_eq!(b.hook_links(), &vec![7, 8, 9]);
    assert_eq!(m.detach(), Ok(vec![1, 2]));
    let b = m.get_builder(ProbeKind::Kprobe).unwrap();
    assert_eq!(b.link_count(), 0);
    assert_eq!(b.hook_count(), Some(3));
    assert_eq!(b.hook_links(), &vec![7, 8, 9]);
}

#[test]
fn probes_attach_in_registration_order_by_mechanism() {
    let mut m = ProbeManager::new();
    m.register_map("events_map".to_string(), 3);
    m.register_filter(Filter { slot: "skb_filter".to_string(), handle: 9 });
    assert_eq!(m.shared_maps(), &vec![("events_map".to_string(), 3)]);
    assert_eq!(m.registered_filters().len(), 1);
    assert_eq!(m.registered_filters()[0].slot, "skb_filter");
    assert_eq!(m.registered_filters()[0].handle, 9);
    m.register_kernel_hook(Hook::from_bytes(vec![1])).unwrap();
    m.register_kernel_hook(Hook::from_bytes(vec![2])).unwrap();
    assert_eq!(m.registered_hooks().len(), 2);
    m.register_probe(kp("a")).unwrap();
    m.register_probe(raw("skb:kfree_skb")).unwrap();
    m.register_probe(kp("b")).unwrap();
    assert!(m.is_pending(ProbeKind::Kprobe));
    assert!(m.is_pending(ProbeKind::RawTracepoint));
    assert!(!m.is_pending(ProbeKind::Tracepoint));
    assert_eq!(m.pending_of(ProbeKind::Kprobe), vec![0, 2]);
    assert_eq!(m.pending_of(ProbeKind::RawTracepoint), vec![1]);
    assert_eq!(m.pending_of(ProbeKind::Tracepoint), Vec::<usize>::new());
    assert_eq!(m.load_plan(ProbeKind::Tracepoint), Ok(Vec::new()));
    let plan = m.load_plan(ProbeKind::RawTracepoint).unwrap();
    assert_eq!(plan.len(), 8);
    assert_eq!(plan[2], KernelOp::ReuseMap { index: 0 });
    assert_eq!(plan[6], KernelOp::InstallHook { index: 0 });
    assert_eq!(plan[7], KernelOp::InstallHook { index: 1 });

    let links = vec![Some(10), Some(11), Some(12)];
    assert_eq!(m.finalize_kind(ProbeKind::Kprobe, ok_load(vec![1, 2]), &links), Ok(()));
    assert_eq!(m.get_builder(ProbeKind::Kprobe).unwrap().links(), &vec![10, 12]);
    assert_eq!(m.get_builder(ProbeKind::Kprobe).unwrap().hook_links(), &vec![1, 2]);
    assert_eq!(m.get_builder(ProbeKind::Kprobe).unwrap().hook_count(), Some(2));
    assert_eq!(m.finalize_kind(ProbeKind::Tracepoint, ok_load(vec![3, 4]), &links), Ok(()));
    assert!(m.get_builder(ProbeKind::Tracepoint).is_none());
    assert_eq!(m.finalize_kind(ProbeKind::RawTracepoint, ok_load(vec![5, 6]), &links), Ok(()));
    assert_eq!(m.get_builder(ProbeKind::RawTracepoint).unwrap().links(), &vec![11]);
    assert_eq!(m.get_builder(ProbeKind::RawTracepoint).unwrap().hook_links(), &vec![5, 6]);
    assert_eq!(m.detach(), Ok(vec![10, 12, 11]));
    assert_eq!(m.get_builder(ProbeKind::Kprobe).unwrap().link_count(), 0);
    assert_eq!(m.get_builder(ProbeKind::Kprobe).unwrap().hook_links(), &vec![1, 2]);
    assert_eq!(m.get_builder(ProbeKind::RawTracepoint).unwrap().hook_links(), &vec![5, 6]);
    assert_eq!(m.detach(), Ok(Vec::new()));
}

#[test]
fn hooks_are_frozen_once_a_builder_is_loaded() {
    let mut m = ProbeManager::new();
    m.register_kernel_hook(Hook::from_bytes(vec![1])).unwrap();
    m.register_probe(kp("a")).unwrap();
    m.finalize_kind(ProbeKind::Kprobe, ok_load(vec![7]), &vec![Some(8)]).unwrap();
    assert_eq!(
        m.register_kernel_hook(Hook::from_bytes(vec![2])),
        Err(ManagerError::HooksFrozen)
    );
    assert_eq!(m.registered_hooks().len(), 1);
    assert_eq!(m.register_probe(kp("b")), Ok(()));
}

#[test]
fn finalizing_a_mechanism_twice_fails() {
    let mut m = ProbeManager::new();
    m.register_probe(kp("a")).unwrap();
    m.finalize_kind(ProbeKind::Kprobe, ok_load(Vec::new()), &vec![Some(8)]).unwrap();
    let again = ManagerError::Builder {
        kind: ProbeKind::Kprobe,
        error: BuilderError::AlreadyInitialized,
    };
    assert_eq!(
        m.finalize_kind(ProbeKind::Kprobe, ok_load(Vec::new()), &vec![Some(9)]),
        Err(again)
    );
    assert_eq!(m.load_plan(ProbeKind::Kprobe), Err(again));
    assert!(again.configuration());
    assert!(ManagerError::HooksFrozen.configuration());
    assert!(!ManagerError::Builder {
        kind: ProbeKind::Kprobe,
        error: BuilderError::AttachFailed,
    }
    .configuration());
    assert_eq!(m.get_builder(ProbeKind::Kprobe).unwrap().links(), &vec![8]);
}

#[test]
fn a_failing_mechanism_leaves_the_others_alone() {
    let mut m = ProbeManager::new();
    m.register_probe(kp("a")).unwrap();
    m.register_probe(raw("skb:kfree_skb")).unwrap();
    m.register_probe(kp("b")).unwrap();
    m.register_probe(kp("c")).unwrap();
    let links = vec![Some(1), Some(2), None, Some(4)];
    assert_eq!(m.finalize_kind(ProbeKind::RawTracepoint, ok_load(Vec::new()), &links), Ok(()));
    assert_eq!(
        m.finalize_kind(ProbeKind::Kprobe, ok_load(Vec::new()), &links),
        Err(ManagerError::Builder { kind: ProbeKind::Kprobe, error: BuilderError::AttachFailed })
    );
    assert_eq!(m.get_builder(ProbeKind::Kprobe).unwrap().links(), &vec![1]);
    assert_eq!(m.get_builder(ProbeKind::RawTracepoint).unwrap().links(), &vec![2]);
    assert_eq!(m.detach(), Ok(vec![1, 2]));
}

#[test]
fn a_failed_load_keeps_no_builder() {
    let mut m = ProbeManager::new();
    m.register_probe(kp("a")).unwrap();
    assert_eq!(
        m.finalize_kind(ProbeKind::Kprobe, LoadReply::Failed { step: 2 }, &vec![Some(1)]),
        Err(ManagerError::Builder {
            kind: ProbeKind::Kprobe,
            error: BuilderError::LoadFailed { op: KernelOp::Load },
        })
    );
    assert!(m.get_builder(ProbeKind::Kprobe).is_none());
    assert_eq!(m.register_kernel_hook(Hook::from_bytes(vec![1])), Ok(()));
    assert_eq!(m.finalize_kind(ProbeKind::Kprobe, ok_load(vec![5]), &Vec::new()).unwrap_err(),
        ManagerError::Builder { kind: ProbeKind::Kprobe, error: BuilderError::AttachFailed });
    assert_eq!(m.get_builder(ProbeKind::Kprobe).unwrap().hook_links(), &vec![5]);
    assert_eq!(m.get_builder(ProbeKind::Kprobe).unwrap().link_count(), 0);
}

#[test]
fn teardown_without_builders_succeeds() {
    let mut m = ProbeManager::new();
    assert_eq!(m.detach(), Ok(Vec::new()));
    m.register_probe(kp("a")).unwrap();
    assert_eq!(m.detach(), Ok(Vec::new()));
}

#[test]
fn version_requirement_compares_major_then_minor() {
    let req = KernelVersionReq { major: 5, minor: 17 };
    assert!(req.matches(version(5, 17)));
    assert!(req.matches(version(5, 18)));
    assert!(req.matches(version(6, 0)));
    assert!(!req.matches(version(5, 16)));
    assert!(!req.matches(version(4, 19)));
    assert!(req.matches(KernelVersion { major: 5, minor: 17, patch: 3 }));
}

#[test]
fn gate_tells_failure_from_degradation() {
    let since = KernelVersionReq { major: 5, minor: 17 };
    assert_eq!(gate(true, version(4, 18), since), Ok(Compat::Full));
    assert_eq!(gate(true, version(6, 1), since), Ok(Compat::Full));
    assert_eq!(gate(false, version(5, 16), since), Ok(Compat::Degraded));
    assert_eq!(gate(false, version(5, 17), since), Err(FeatureMissing { since }));
}

#[test]
fn skb_drop_compatibility() {
    let mut module = SkbDropModule::new();
    assert_eq!(drop_reasons_since(), KernelVersionReq { major: 5, minor: 17 });
    assert_eq!(module.known_kernel_types(), Some(vec!["enum skb_drop_reason"]));
    assert_eq!(
        module.can_run(true, OffsetLookup::Found { offset: 1 }, version(6, 1)),
        Ok(Compat::Full)
    );
    assert_eq!(
        module.can_run(true, OffsetLookup::Found { offset: 1 }, version(4, 18)),
        Ok(Compat::Full)
    );
    assert_eq!(module.can_run(true, OffsetLookup::NotFound, version(5, 16)), Ok(Compat::Degraded));
    assert_eq!(module.can_run(true, OffsetLookup::Failed, version(4, 18)), Ok(Compat::Degraded));
    assert_eq!(
        module.can_run(true, OffsetLookup::NotFound, version(5, 17)),
        Err(ModuleError::DropReasonsMissing)
    );
    assert_eq!(
        module.can_run(true, OffsetLookup::Failed, version(6, 2)),
        Err(ModuleError::DropReasonsMissing)
    );
    assert_eq!(
        module.can_run(false, OffsetLookup::Found { offset: 1 }, version(6, 2)),
        Err(ModuleError::Target { reason: ProbeError::UnknownSymbol })
    );
}

#[test]
fn skb_drop_registers_probe_and_hook() {
    let mut module = SkbDropModule::new();
    let mut m = ProbeManager::new();
    assert_eq!(
        module.init(false, Hook::from_bytes(vec![1, 2]), &mut m),
        Err(ModuleError::Target { reason: ProbeError::UnknownSymbol })
    );
    assert_eq!(m.pending().len(), 0);
    assert_eq!(m.registered_hooks().len(), 0);
    assert_eq!(module.init(true, Hook::from_bytes(vec![1, 2]), &mut m), Ok(()));
    assert_eq!(m.pending().len(), 1);
    assert_eq!(m.pending()[0].kind(), ProbeKind::RawTracepoint);
    assert_eq!(m.pending()[0].symbol().name(), "skb:kfree_skb");
    assert_eq!(m.pending()[0].attach_name(), "kfree_skb");
    assert_eq!(m.registered_hooks().len(), 1);
    m.finalize_kind(ProbeKind::RawTracepoint, ok_load(vec![1]), &vec![Some(2)]).unwrap();
    assert_eq!(
        module.init(true, Hook::from_bytes(vec![3]), &mut m),
        Err(ModuleError::HookRefused { error: ManagerError::HooksFrozen })
    );
    assert_eq!(m.pending().len(), 2);
    assert_eq!(m.registered_hooks().len(), 1);
}
