use rf_a::platform::test::{TestPlatform, TestPowerState, TestPsciPlatformImpl, TEST_MAX_POWER_LEVEL};
use rf_a::platform::Platform;
use rf_a::services::ffa::spmd::TestSpm;
use rf_a::services::psci::abi::{
    decode_call, AffinityInfo, Cookie, EntryPoint, ErrorCode, HwState, MemProtectRange, Mpidr,
    PowerState, PsciCall, PsciFeature, ResetType, SystemOff2Type, AFFINITY_INFO_32,
    AFFINITY_INFO_64, CPU_DEFAULT_SUSPEND_32, CPU_DEFAULT_SUSPEND_64, CPU_FREEZE, CPU_OFF,
    CPU_ON_32, CPU_ON_64, CPU_SUSPEND_32, CPU_SUSPEND_64, MEM_PROTECT,
    MEM_PROTECT_CHECK_RANGE_32, MEM_PROTECT_CHECK_RANGE_64, MIGRATE_32, MIGRATE_64,
    MIGRATE_INFO_TYPE, MIGRATE_INFO_UP_CPU_32, MIGRATE_INFO_UP_CPU_64, NODE_HW_STATE_32,
    NODE_HW_STATE_64, PSCI_FEATURES, PSCI_SET_SUSPEND_MODE, PSCI_STAT_COUNT_32,
    PSCI_STAT_COUNT_64, PSCI_STAT_RESIDENCY_32, PSCI_STAT_RESIDENCY_64, PSCI_VERSION,
    SYSTEM_OFF, SYSTEM_OFF2_32, SYSTEM_OFF2_64, SYSTEM_RESET, SYSTEM_RESET2_32,
    SYSTEM_RESET2_64, SYSTEM_SUSPEND_32, SYSTEM_SUSPEND_64,
};
use rf_a::services::psci::power_domain_tree::{CpuPowerNode, NonCpuPowerNode, PowerDomainTree};
use rf_a::services::psci::{
    CpuCaller, Psci, PsciAction, PsciCompositePowerState, PsciPlatformInterface, WakeUpReason,
};

const ENTRY_POINT: EntryPoint = EntryPoint::Entry64 {
    entry_point_address: 0x0123_4567_89ab_cdef,
    context_id: 0xfedc_ba98_7654_3210,
};

const CPU0_MPIDR: Mpidr = Mpidr { aff0: 0, aff1: 0, aff2: 0, aff3: Some(0) };
const CPU1_MPIDR: Mpidr = Mpidr { aff0: 1, aff1: 0, aff2: 0, aff3: Some(0) };
const INVALID_MPIDR: Mpidr = Mpidr { aff0: 100, aff1: 100, aff2: 100, aff3: Some(100) };

const RUN: TestPowerState = TestPowerState::Run;
const OFF: TestPowerState = TestPowerState::Off;

/// The CPU with the given MPIDR, calling.
fn caller(mpidr: Mpidr) -> CpuCaller {
    CpuCaller { cpu_index: TestPlatform::core_position(mpidr.value()), mpidr_el1: mpidr.value() }
}

fn new_psci() -> Psci<TestPsciPlatformImpl> {
    Psci::new(TestPsciPlatformImpl, 0).unwrap()
}

fn new_tree() -> PowerDomainTree<TestPowerState> {
    PowerDomainTree::new(&TestPsciPlatformImpl::topology(), TEST_MAX_POWER_LEVEL).unwrap()
}

fn is_power_down(action: &PsciAction<TestPowerState>) -> bool {
    matches!(action, PsciAction::SuspendPowerDown { .. } | PsciAction::CpuOffPowerDown { .. })
}

#[test]
fn psci_composite_power_state() {
    let mut composite_state = PsciCompositePowerState::<TestPowerState>::off(TEST_MAX_POWER_LEVEL);
    assert_eq!(OFF, composite_state.cpu_level_state());

    assert_eq!(OFF, composite_state.highest_level_state());

    composite_state.states[0] = RUN;
    assert_eq!(RUN, composite_state.cpu_level_state());

    composite_state = PsciCompositePowerState::off(TEST_MAX_POWER_LEVEL);
    assert_eq!(Some(TEST_MAX_POWER_LEVEL), composite_state.find_highest_power_down_level());
    assert_eq!(Some(TEST_MAX_POWER_LEVEL), composite_state.find_highest_non_run_level());

    composite_state.states[TEST_MAX_POWER_LEVEL] = RUN;
    assert_eq!(Some(TEST_MAX_POWER_LEVEL - 1), composite_state.find_highest_power_down_level());
    assert_eq!(Some(TEST_MAX_POWER_LEVEL - 1), composite_state.find_highest_non_run_level());

    composite_state = PsciCompositePowerState::run(TEST_MAX_POWER_LEVEL);
    assert_eq!(None, composite_state.find_highest_power_down_level());
    assert_eq!(None, composite_state.find_highest_non_run_level());

    composite_state = PsciCompositePowerState::run(TEST_MAX_POWER_LEVEL);
    assert!(!composite_state.is_valid_suspend_request(false));

    composite_state = PsciCompositePowerState::off(TEST_MAX_POWER_LEVEL);
    composite_state.states[0] = RUN;
    assert!(!composite_state.is_valid_suspend_request(false));

    composite_state = PsciCompositePowerState::off(TEST_MAX_POWER_LEVEL);
    assert!(composite_state.is_valid_suspend_request(true));
    assert!(!composite_state.is_valid_suspend_request(false));

    composite_state = PsciCompositePowerState::run(TEST_MAX_POWER_LEVEL);
    composite_state.states[0] = OFF;
    assert!(composite_state.is_valid_suspend_request(true));
    assert!(!composite_state.is_valid_suspend_request(false));
}

#[test]
fn psci_composite_power_state_set_from_nodes() {
    let mut composite_state = PsciCompositePowerState::<TestPowerState>::off(TEST_MAX_POWER_LEVEL);
    let mut tree = new_tree();

    tree.set_cpu_local_state(2, RUN);
    let ancestors = tree.ancestors(2, TEST_MAX_POWER_LEVEL);
    for ancestor in &ancestors {
        tree.set_node_local_state(*ancestor, RUN);
    }
    composite_state.set_local_states_from_nodes(&tree, 2, &ancestors);

    assert_eq!(vec![RUN; TEST_MAX_POWER_LEVEL + 1], composite_state.states);
}

#[test]
fn psci_composite_power_state_coordination() {
    let mut composite_state = PsciCompositePowerState::<TestPowerState>::off(TEST_MAX_POWER_LEVEL);
    composite_state.states[TEST_MAX_POWER_LEVEL - 1] = RUN;
    composite_state.states[TEST_MAX_POWER_LEVEL] = RUN;
    let mut tree = new_tree();

    let ancestors = tree.ancestors(2, TEST_MAX_POWER_LEVEL);
    composite_state.coordinate_state(&mut tree, 2, &ancestors);
}

#[test]
fn psci_cpu_suspend() {
    let mut psci = new_psci();
    let cpu0 = caller(CPU0_MPIDR);

    assert_eq!(
        Err(ErrorCode::InvalidParameters),
        psci.cpu_suspend(cpu0, &TestSpm, PowerState::StandbyOrRetention(100), ENTRY_POINT).0
    );

    assert_eq!(Ok(()), psci.cpu_suspend(cpu0, &TestSpm, PowerState::StandbyOrRetention(0), ENTRY_POINT).0);

    let (result, action) = psci.cpu_suspend(cpu0, &TestSpm, PowerState::StandbyOrRetention(2), ENTRY_POINT);
    assert_eq!(Ok(()), result);
    if let PsciAction::StandbyWfi(state) = action {
        psci.finish_standby_suspend(cpu0, state);
    }

    let (_, action) = psci.cpu_suspend(cpu0, &TestSpm, PowerState::PowerDown(0), ENTRY_POINT);
    assert!(is_power_down(&action));

    let wakeup_reason = psci.handle_cpu_boot(cpu0.cpu_index);
    assert_eq!(wakeup_reason, WakeUpReason::SuspendFinished(ENTRY_POINT));
}

#[test]
fn psci_cpu_on() {
    let mut psci = new_psci();
    let cpu0 = caller(CPU0_MPIDR);

    assert_eq!(
        Err(ErrorCode::InvalidParameters),
        psci.cpu_on::<TestPlatform>(cpu0, INVALID_MPIDR, ENTRY_POINT)
    );

    assert_eq!(Ok(()), psci.cpu_on::<TestPlatform>(cpu0, CPU1_MPIDR, ENTRY_POINT));
    assert_eq!(
        Err(ErrorCode::OnPending),
        psci.cpu_on::<TestPlatform>(cpu0, CPU1_MPIDR, ENTRY_POINT)
    );

    let wakeup_reason = psci.handle_cpu_boot(caller(CPU1_MPIDR).cpu_index);
    assert_eq!(wakeup_reason, WakeUpReason::CpuOn(ENTRY_POINT));

    assert_eq!(
        Err(ErrorCode::AlreadyOn),
        psci.cpu_on::<TestPlatform>(cpu0, CPU1_MPIDR, ENTRY_POINT)
    );
}

#[test]
fn psci_cpu_off() {
    let mut psci = new_psci();
    let cpu0 = caller(CPU0_MPIDR);
    let cpu1 = caller(CPU1_MPIDR);

    assert_eq!(Ok(()), psci.cpu_on::<TestPlatform>(cpu0, CPU1_MPIDR, ENTRY_POINT));

    psci.handle_cpu_boot(cpu1.cpu_index);

    let (_, action) = psci.cpu_off(cpu1, &TestSpm);
    assert!(is_power_down(&action));
}

#[test]
fn psci_affinity_info() {
    let mut psci = new_psci();
    let cpu0 = caller(CPU0_MPIDR);

    assert_eq!(
        Err(ErrorCode::InvalidParameters),
        psci.affinity_info::<TestPlatform>(cpu0, INVALID_MPIDR, 0)
    );

    assert_eq!(
        Err(ErrorCode::InvalidParameters),
        psci.affinity_info::<TestPlatform>(cpu0, CPU1_MPIDR, TEST_MAX_POWER_LEVEL as u32)
    );

    assert_eq!(Ok(AffinityInfo::Off), psci.affinity_info::<TestPlatform>(cpu0, CPU1_MPIDR, 0));

    assert_eq!(Ok(()), psci.cpu_on::<TestPlatform>(cpu0, CPU1_MPIDR, ENTRY_POINT));

    assert_eq!(
        Ok(AffinityInfo::OnPending),
        psci.affinity_info::<TestPlatform>(cpu0, CPU1_MPIDR, 0)
    );

    let _entry_point = psci.handle_cpu_boot(caller(CPU1_MPIDR).cpu_index);
    assert_eq!(Ok(AffinityInfo::On), psci.affinity_info::<TestPlatform>(cpu0, CPU1_MPIDR, 0));
}

/// Checks the local state of a CPU and of its ancestors, lowest level first.
fn check_ancestor_state(psci: &Psci<TestPsciPlatformImpl>, cpu_index: usize, expected_states: &[TestPowerState]) {
    let tree = psci.power_domain_tree();
    assert_eq!(expected_states[0], tree.cpu_node(cpu_index).local_state());
    let ancestors = tree.ancestors(cpu_index, TEST_MAX_POWER_LEVEL);
    for (parent, expected_state) in ancestors.iter().zip(&expected_states[1..]) {
        assert_eq!(*expected_state, tree.non_cpu_node(*parent).local_state());
    }
}

#[test]
fn psci_complex_suspend_scenario() {
    // Check correct state in the power domain tree while executing the following steps.
    // * Turn on all CPUs
    // * Power down CPUs 6-13
    // * Power down CPUs 0-5
    // * Wake up CPU0
    // * Wake up CPU6

    let cpus = [
        (0, 0, 0),
        (0, 0, 1),
        (0, 0, 2),
        (0, 1, 0),
        (0, 1, 1),
        (0, 1, 2),
        (1, 0, 0),
        (1, 0, 1),
        (1, 0, 2),
        (1, 1, 0),
        (1, 1, 1),
        (1, 1, 2),
        (1, 1, 3),
    ];

    let mut psci = new_psci();
    let cpu0 = caller(CPU0_MPIDR);

    assert_eq!(
        Ok(AffinityInfo::On),
        psci.affinity_info::<TestPlatform>(cpu0, Mpidr { aff0: 0, aff1: 0, aff2: 0, aff3: Some(0) }, 0)
    );

    // Turning on all secondary CPUs
    for cpu in &cpus[1..] {
        let mpidr = Mpidr { aff0: cpu.2, aff1: cpu.1, aff2: cpu.0, aff3: Some(0) };
        assert_eq!(Ok(()), psci.cpu_on::<TestPlatform>(cpu0, mpidr, ENTRY_POINT));
        assert_eq!(Ok(AffinityInfo::OnPending), psci.affinity_info::<TestPlatform>(cpu0, mpidr, 0));
    }

    // Boot secondary CPUs
    for cpu in cpus.iter().skip(1) {
        let mpidr = Mpidr::from_aff3210(0, cpu.0, cpu.1, cpu.2);
        let wakeup_reason = psci.handle_cpu_boot(caller(mpidr).cpu_index);
        assert_eq!(wakeup_reason, WakeUpReason::CpuOn(ENTRY_POINT));
        assert_eq!(Ok(AffinityInfo::On), psci.affinity_info::<TestPlatform>(caller(mpidr), mpidr, 0));
    }

    for cpu_index in 6..cpus.len() {
        check_ancestor_state(&psci, cpu_index, &[RUN, RUN, RUN, RUN]);
    }

    // Put second cluster in power down suspend
    for cpu in cpus.iter().skip(6) {
        let mpidr = Mpidr::from_aff3210(0, cpu.0, cpu.1, cpu.2);
        let (_, action) = psci.cpu_suspend(caller(mpidr), &TestSpm, PowerState::PowerDown(0), ENTRY_POINT);
        assert!(is_power_down(&action));
    }

    for cpu_index in 6..cpus.len() {
        check_ancestor_state(&psci, cpu_index, &[OFF, OFF, OFF, RUN]);
    }

    // Power down off all other CPUs
    for cpu in cpus.iter().take(6) {
        let mpidr = Mpidr::from_aff3210(0, cpu.0, cpu.1, cpu.2);
        let (_, action) = psci.cpu_suspend(caller(mpidr), &TestSpm, PowerState::PowerDown(0), ENTRY_POINT);
        assert!(is_power_down(&action));
    }

    for cpu_index in 0..cpus.len() {
        check_ancestor_state(&psci, cpu_index, &[OFF, OFF, OFF, OFF]);
    }

    // Wake up CPU 0
    let wakeup_reason = psci.handle_cpu_boot(cpu0.cpu_index);
    assert_eq!(wakeup_reason, WakeUpReason::SuspendFinished(ENTRY_POINT));

    // First CPU is on
    check_ancestor_state(&psci, 0, &[RUN, RUN, RUN, RUN]);

    // First cluster is on, but the CPUs are off
    for cpu_index in 1..3 {
        check_ancestor_state(&psci, cpu_index, &[OFF, RUN, RUN, RUN]);
    }

    // Second cluster is off
    for cpu_index in 3..6 {
        check_ancestor_state(&psci, cpu_index, &[OFF, OFF, RUN, RUN]);
    }

    // The rest of the nodes are off except the top level node
    for cpu_index in 6..cpus.len() {
        check_ancestor_state(&psci, cpu_index, &[OFF, OFF, OFF, RUN]);
    }

    // Wake up CPU 6
    let cpu6_mpidr = Mpidr::from_aff3210(0, cpus[6].0, cpus[6].1, cpus[6].2);
    let wakeup_reason = psci.handle_cpu_boot(caller(cpu6_mpidr).cpu_index);
    assert_eq!(wakeup_reason, WakeUpReason::SuspendFinished(ENTRY_POINT));

    // CPU 0 is still on
    check_ancestor_state(&psci, 0, &[RUN, RUN, RUN, RUN]);

    // First cluster is on, but the CPUs are off
    for cpu_index in 1..3 {
        check_ancestor_state(&psci, cpu_index, &[OFF, RUN, RUN, RUN]);
    }

    // Second cluster is off
    for cpu_index in 3..6 {
        check_ancestor_state(&psci, cpu_index, &[OFF, OFF, RUN, RUN]);
    }

    // CPU 6 is now on
    check_ancestor_state(&psci, 6, &[RUN, RUN, RUN, RUN]);

    // Third cluster is on, but the CPUs are off
    for cpu_index in 7..9 {
        check_ancestor_state(&psci, cpu_index, &[OFF, RUN, RUN, RUN]);
    }

    // Fourth cluster is off
    for cpu_index in 9..cpus.len() {
        check_ancestor_state(&psci, cpu_index, &[OFF, OFF, RUN, RUN]);
    }
}

#[test]
fn psci_system_off() {
    let psci = new_psci();

    assert!(matches!(psci.system_off(&TestSpm), PsciAction::SystemOff));
}

#[test]
fn psci_system_off2() {
    let psci = new_psci();

    let off_type = SystemOff2Type::HibernateOff;
    let cookie = Cookie::Cookie64(0);

    assert_eq!(Ok(()), psci.system_off2(&TestSpm, off_type, cookie));
}

#[test]
fn psci_system_reset() {
    let psci = new_psci();

    assert!(matches!(psci.system_reset(&TestSpm), PsciAction::SystemReset));
}

#[test]
fn psci_system_reset2() {
    let psci = new_psci();

    assert_eq!(Ok(()), psci.system_reset2(&TestSpm, ResetType::SystemWarmReset, Cookie::Cookie64(0)));
}

#[test]
fn psci_mem_protect() {
    let psci = new_psci();

    assert_eq!(Ok(true), psci.mem_protect(true));
    assert_eq!(Ok(()), psci.mem_protect_check_range(MemProtectRange::Range64 { base: 0, length: 4 }));
}

#[test]
fn psci_features() {
    let psci = new_psci();

    let supported_functions = [
        PSCI_VERSION,
        CPU_OFF,
        CPU_ON_32,
        CPU_ON_64,
        AFFINITY_INFO_32,
        AFFINITY_INFO_64,
        SYSTEM_OFF,
        SYSTEM_RESET,
        SYSTEM_RESET2_32,
        SYSTEM_RESET2_64,
        MEM_PROTECT,
        MEM_PROTECT_CHECK_RANGE_32,
        MEM_PROTECT_CHECK_RANGE_64,
        PSCI_FEATURES,
        PSCI_SET_SUSPEND_MODE,
        CPU_FREEZE,
        CPU_DEFAULT_SUSPEND_32,
        CPU_DEFAULT_SUSPEND_64,
        NODE_HW_STATE_32,
        NODE_HW_STATE_64,
        SYSTEM_SUSPEND_32,
        SYSTEM_SUSPEND_64,
    ];

    let not_supported_functions = [
        MIGRATE_32,
        MIGRATE_64,
        MIGRATE_INFO_UP_CPU_32,
        MIGRATE_INFO_UP_CPU_64,
        PSCI_STAT_RESIDENCY_32,
        PSCI_STAT_RESIDENCY_64,
        PSCI_STAT_COUNT_32,
        PSCI_STAT_COUNT_64,
    ];

    assert_eq!(Ok(0), psci.handle_features(PsciFeature::SmcccVersion));
    assert_eq!(Ok(0x0000_0003), psci.handle_features(PsciFeature::PsciFunction(CPU_SUSPEND_32)));
    assert_eq!(Ok(0x0000_0003), psci.handle_features(PsciFeature::PsciFunction(CPU_SUSPEND_64)));
    assert_eq!(Ok(0x0000_0001), psci.handle_features(PsciFeature::PsciFunction(SYSTEM_OFF2_32)));
    assert_eq!(Ok(0x0000_0001), psci.handle_features(PsciFeature::PsciFunction(SYSTEM_OFF2_64)));
    assert_eq!(Ok(0), psci.handle_features(PsciFeature::PsciFunction(MIGRATE_INFO_TYPE)));

    for function_id in supported_functions {
        assert_eq!(Ok(0), psci.handle_features(PsciFeature::PsciFunction(function_id)));
    }
    for function_id in not_supported_functions {
        assert_eq!(Err(ErrorCode::NotSupported), psci.handle_features(PsciFeature::PsciFunction(function_id)));
    }
}

#[test]
fn psci_cpu_freeze() {
    let psci = new_psci();
    let (result, action) = psci.cpu_freeze();
    assert_eq!(Ok(()), result);
    assert!(matches!(action, PsciAction::CpuFreeze));
}

#[test]
fn psci_cpu_default_suspend() {
    let mut psci = new_psci();
    assert_eq!(Ok(()), psci.cpu_default_suspend(caller(CPU0_MPIDR), &TestSpm, ENTRY_POINT).0);
}

#[test]
fn psci_node_hw_state() {
    let psci = new_psci();
    let cpu0 = caller(CPU0_MPIDR);

    assert_eq!(Err(ErrorCode::InvalidParameters), psci.node_hw_state::<TestPlatform>(cpu0, INVALID_MPIDR, 0));

    assert_eq!(
        Err(ErrorCode::InvalidParameters),
        psci.node_hw_state::<TestPlatform>(cpu0, CPU1_MPIDR, TEST_MAX_POWER_LEVEL as u32 + 1)
    );

    assert_eq!(Ok(HwState::Off), psci.node_hw_state::<TestPlatform>(cpu0, CPU1_MPIDR, 0));
}

#[test]
fn psci_system_suspend() {
    let mut psci = new_psci();
    let cpu0 = caller(CPU0_MPIDR);

    let (_, action) = psci.system_suspend(cpu0, &TestSpm, ENTRY_POINT);
    assert!(is_power_down(&action));
    psci.handle_cpu_boot(cpu0.cpu_index);

    assert_eq!(Ok(()), psci.cpu_on::<TestPlatform>(cpu0, CPU1_MPIDR, ENTRY_POINT));
    // Not last CPU
    assert_eq!(Err(ErrorCode::Denied), psci.system_suspend(cpu0, &TestSpm, ENTRY_POINT).0);
}

#[test]
fn non_cpu_power_node() {
    let mut node = NonCpuPowerNode::<TestPowerState>::new(Some(1));
    assert_eq!(node.parent(), Some(1));
    assert_eq!(OFF, node.local_state());
    let (start, end) = node.cpu_range();
    assert!(start >= end);
    assert!(node.requested_states().is_empty());

    node.assign_cpu(2);
    assert_eq!((2, 3), node.cpu_range());

    node.assign_cpu(3);
    assert_eq!((2, 4), node.cpu_range());

    assert_eq!(vec![OFF, OFF], node.requested_states());

    node.set_requested_power_state(3, RUN);
    assert_eq!(vec![OFF, RUN], node.requested_states());

    node.set_minimal_allowed_state();
    assert_eq!(RUN, node.local_state());

    node.set_requested_power_state(3, OFF);
    node.set_minimal_allowed_state();
    assert_eq!(OFF, node.local_state());

    node.set_local_state(RUN);
    assert_eq!(RUN, node.local_state());
}

#[test]
fn cpu_power_node() {
    let mut node = CpuPowerNode::<TestPowerState>::new(3);
    assert_eq!(3, node.parent());
    assert_eq!(AffinityInfo::Off, node.affinity_info());
    assert_eq!(None, node.highest_affected_level());
    assert_eq!(OFF, node.local_state());
    assert_eq!(None, node.pop_entry_point());

    node.set_affinity_info(AffinityInfo::On);
    assert_eq!(AffinityInfo::On, node.affinity_info());

    node.set_highest_affected_level(4);
    assert_eq!(Some(4), node.highest_affected_level());
    node.clear_highest_affected_level();
    assert_eq!(None, node.highest_affected_level());

    node.set_local_state(RUN);
    assert_eq!(RUN, node.local_state());

    assert_eq!(None, node.pop_entry_point());
    node.set_entry_point(EntryPoint::Entry32 { entry_point_address: 1, context_id: 2 });
    assert_eq!(Some(EntryPoint::Entry32 { entry_point_address: 1, context_id: 2 }), node.pop_entry_point());
    assert_eq!(None, node.pop_entry_point());
}

#[test]
fn power_domain_tree_create() {
    let tree = new_tree();
    let non_cpu_parents = [None, Some(0), Some(0), Some(1), Some(1), Some(2), Some(2)];
    let non_cpu_ranges = [(0, 13), (0, 6), (6, 13), (0, 3), (3, 6), (6, 9), (9, 13)];
    let cpu_parents = [3, 3, 3, 4, 4, 4, 5, 5, 5, 6, 6, 6, 6];

    assert_eq!(non_cpu_parents.len(), tree.non_cpu_count());
    assert_eq!(cpu_parents.len(), tree.cpu_count());

    for (index, (parent, range)) in non_cpu_parents.iter().zip(non_cpu_ranges).enumerate() {
        assert_eq!(*parent, tree.non_cpu_node(index).parent());
        assert_eq!(range, tree.non_cpu_node(index).cpu_range());
    }

    for (index, parent) in cpu_parents.iter().enumerate() {
        assert_eq!(*parent, tree.cpu_node(index).parent());
    }
}

#[test]
fn power_domain_tree_is_last_cpu() {
    let mut tree = new_tree();

    tree.set_cpu_affinity_info(2, AffinityInfo::On);
    assert!(tree.is_last_cpu(2));

    tree.set_cpu_affinity_info(5, AffinityInfo::On);

    assert!(!tree.is_last_cpu(2));
}

#[test]
fn power_domain_tree_with_acenstors_locked() {
    let tree = new_tree();

    let ancestors = tree.ancestors(4, 1);
    assert_eq!(2, ancestors.len());
    assert_eq!(Some(1), tree.non_cpu_node(ancestors[0]).parent());
    assert_eq!(Some(0), tree.non_cpu_node(ancestors[1]).parent());

    let ancestors = tree.ancestors(12, TEST_MAX_POWER_LEVEL);
    assert_eq!(3, ancestors.len());
    assert_eq!(Some(2), tree.non_cpu_node(ancestors[0]).parent());
    assert_eq!(Some(0), tree.non_cpu_node(ancestors[1]).parent());
    assert_eq!(None, tree.non_cpu_node(ancestors[2]).parent());
}

#[test]
fn psci_decode_cpu_on_and_suspend() {
    let call = decode_call(&[CPU_ON_64 as u64, 0x0000_0001_0002_0304, 0x8000_0000, 42]).unwrap();
    assert_eq!(
        call,
        PsciCall::CpuOn {
            target_cpu: Mpidr { aff0: 4, aff1: 3, aff2: 2, aff3: Some(1) },
            entry: EntryPoint::Entry64 { entry_point_address: 0x8000_0000, context_id: 42 },
        }
    );
    let call = decode_call(&[CPU_SUSPEND_32 as u64, 0x4000_0022, 0x1_0000_1000, 7]).unwrap();
    assert_eq!(
        call,
        PsciCall::CpuSuspend {
            state: PowerState::PowerDown(0x22),
            entry: EntryPoint::Entry32 { entry_point_address: 0x1000, context_id: 7 },
        }
    );
}

#[test]
fn psci_decode_errors() {
    assert_eq!(Err(ErrorCode::NotSupported), decode_call(&[0x8400_0016, 0, 0, 0]));
    assert_eq!(Err(ErrorCode::InvalidParameters), decode_call(&[CPU_SUSPEND_64 as u64, 0x8000_0000, 0, 0]));
    assert_eq!(Err(ErrorCode::InvalidParameters), decode_call(&[CPU_ON_32 as u64, 0x0100_0000, 0, 0]));
    assert_eq!(Err(ErrorCode::InvalidParameters), decode_call(&[AFFINITY_INFO_32 as u64, 0, 3, 0]));
    assert_eq!(Err(ErrorCode::NotSupported), decode_call(&[PSCI_FEATURES as u64, 0x1234, 0, 0]));
    assert_eq!(Err(ErrorCode::InvalidParameters), decode_call(&[SYSTEM_OFF2_32 as u64, 2, 0, 0]));
}

#[test]
fn psci_smc_version_and_unknown() {
    let mut psci = new_psci();
    let cpu0 = caller(CPU0_MPIDR);
    let mut regs = [0u64; 18];
    regs[0] = PSCI_VERSION as u64 | 0x1_0000;
    let (ret, _) = psci.handle_non_secure_smc::<TestPlatform, TestSpm>(cpu0, &TestSpm, &regs);
    assert_eq!(vec![0x0001_0003], ret.values());

    regs[0] = 0x8400_001f;
    let (ret, _) = psci.handle_non_secure_smc::<TestPlatform, TestSpm>(cpu0, &TestSpm, &regs);
    assert_eq!(vec![(-1i64) as u64], ret.values());
}

#[test]
fn psci_set_suspend_mode_needs_last_cpu() {
    let mut psci = new_psci();
    let cpu0 = caller(CPU0_MPIDR);
    let mut regs = [0u64; 4];
    regs[0] = PSCI_SET_SUSPEND_MODE as u64;
    regs[1] = 1;
    assert_eq!(Ok(0), psci.handle_smc_inner::<TestPlatform, TestSpm>(cpu0, &TestSpm, &regs).0);
    assert_eq!(Ok(()), psci.cpu_on::<TestPlatform>(cpu0, CPU1_MPIDR, ENTRY_POINT));
    regs[1] = 0;
    assert_eq!(Err(ErrorCode::Denied), psci.handle_smc_inner::<TestPlatform, TestSpm>(cpu0, &TestSpm, &regs).0);
}
