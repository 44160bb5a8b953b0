//! The platform of the unit tests: a system of two groups of two clusters, with thirteen CPUs,
//! and every optional PSCI feature.

use crate::platform::{affinity, spec_affinity, Platform};
use crate::services::arch::WorkaroundSupport;
use crate::services::psci::abi::{
    Cookie, EntryPoint, ErrorCode, HwState, MemProtectRange, Mpidr, PowerState, ResetType,
    SystemOff2Type,
};
use crate::services::psci::{
    lemma_prefix_states, prefix_states, PlatformPowerStateInterface,
    PowerStateType, PsciCompositePowerState, PsciPlatformInterface,
};
use vstd::prelude::*;

verus! {

/// The platform of the unit tests.
pub struct TestPlatform;

/// The number of CPUs of the test platform.
pub const TEST_CORE_COUNT: usize = 13;

/// Whether affinity fields Aff2-Aff0 name a CPU of the test platform: clusters (0, 0), (0, 1),
/// (1, 0) of three CPUs and cluster (1, 1) of four.
pub open spec fn test_cpu_exists(aff2: u64, aff1: u64, aff0: u64) -> bool {
    &&& aff2 <= 1
    &&& aff1 <= 1
    &&& aff0 < (if aff2 == 1 && aff1 == 1 { 4u64 } else { 3u64 })
}

impl Platform for TestPlatform {
    open spec fn spec_core_count() -> nat {
        TEST_CORE_COUNT as nat
    }

    open spec fn spec_mpidr_is_valid(mpidr: u64) -> bool {
        &&& spec_affinity(mpidr, 3) == 0
        &&& test_cpu_exists(spec_affinity(mpidr, 2), spec_affinity(mpidr, 1), spec_affinity(mpidr, 0))
    }

    /// Aff2 * 6 + Aff1 * 3 + Aff0.
    open spec fn spec_core_position(mpidr: u64) -> nat {
        (spec_affinity(mpidr, 2) * 6 + spec_affinity(mpidr, 1) * 3 + spec_affinity(mpidr, 0)) as nat
    }

    proof fn lemma_core_position(mpidr: u64) {
    }

    fn core_count() -> (r: usize) {
        TEST_CORE_COUNT
    }

    fn mpidr_is_valid(mpidr: u64) -> (r: bool) {
        let (aff2, aff1, aff0) = (affinity(mpidr, 2), affinity(mpidr, 1), affinity(mpidr, 0));
        affinity(mpidr, 3) == 0 && aff2 <= 1 && aff1 <= 1 && aff0 < (if aff2 == 1 && aff1 == 1 { 4u64 } else { 3u64 })
    }

    fn core_position(mpidr: u64) -> (r: usize) {
        let (aff2, aff1, aff0) = (affinity(mpidr, 2), affinity(mpidr, 1), affinity(mpidr, 0));
        (aff2 * 6 + aff1 * 3 + aff0) as usize
    }

    open spec fn spec_arch_workaround_1_supported() -> WorkaroundSupport {
        WorkaroundSupport::SafeButNotRequired
    }

    open spec fn spec_arch_workaround_2_supported() -> WorkaroundSupport {
        WorkaroundSupport::SafeButNotRequired
    }

    open spec fn spec_arch_workaround_3_supported() -> WorkaroundSupport {
        WorkaroundSupport::SafeButNotRequired
    }

    open spec fn spec_arch_workaround_4_supported() -> WorkaroundSupport {
        WorkaroundSupport::SafeButNotRequired
    }

    fn arch_workaround_1_supported() -> (r: WorkaroundSupport) {
        WorkaroundSupport::SafeButNotRequired
    }

    fn arch_workaround_1() {
    }

    fn arch_workaround_2_supported() -> (r: WorkaroundSupport) {
        WorkaroundSupport::SafeButNotRequired
    }

    fn arch_workaround_2() {
    }

    fn arch_workaround_3_supported() -> (r: WorkaroundSupport) {
        WorkaroundSupport::SafeButNotRequired
    }

    fn arch_workaround_3() {
    }

    fn arch_workaround_4_supported() -> (r: WorkaroundSupport) {
        WorkaroundSupport::SafeButNotRequired
    }
}

/// The power states of the test platform, from running to off.
#[derive(Clone, Copy, Debug, PartialEq, Eq, Structural)]
pub enum TestPowerState {
    /// Running.
    Run,
    /// Standby.
    Standby,
    /// Off.
    Off,
}

impl PlatformPowerStateInterface for TestPowerState {
    open spec fn spec_depth(&self) -> nat {
        match self {
            TestPowerState::Run => 0,
            TestPowerState::Standby => 1,
            TestPowerState::Off => 2,
        }
    }

    open spec fn spec_type(&self) -> PowerStateType {
        match self {
            TestPowerState::Run => PowerStateType::Run,
            TestPowerState::Standby => PowerStateType::StandbyOrRetention,
            TestPowerState::Off => PowerStateType::PowerDown,
        }
    }

    open spec fn spec_off() -> Self {
        TestPowerState::Off
    }

    open spec fn spec_run() -> Self {
        TestPowerState::Run
    }

    proof fn lemma_power_state_order(a: Self, b: Self) {
    }

    fn off() -> (r: Self) {
        TestPowerState::Off
    }

    fn run() -> (r: Self) {
        TestPowerState::Run
    }

    fn power_state_type(&self) -> (r: PowerStateType) {
        match self {
            TestPowerState::Run => PowerStateType::Run,
            TestPowerState::Standby => PowerStateType::StandbyOrRetention,
            TestPowerState::Off => PowerStateType::PowerDown,
        }
    }

    fn depth(&self) -> (r: usize) {
        match self {
            TestPowerState::Run => 0,
            TestPowerState::Standby => 1,
            TestPowerState::Off => 2,
        }
    }
}

/// The highest power level of the test platform.
pub const TEST_MAX_POWER_LEVEL: usize = 3;

/// Every optional PSCI feature.
pub const TEST_FEATURES: u64 = 0x1ff;

/// The levels a test power state puts to a low state, and that state: a standby state ID `n` up
/// to 2 puts the lowest `n + 1` levels in standby; power down state ID 0 turns all levels off,
/// and ID 1 the CPU only.
pub open spec fn spec_test_power_state(power_state: PowerState) -> Option<(nat, TestPowerState)> {
    match power_state {
        PowerState::StandbyOrRetention(id) => if id <= 2 { Some(((id + 1) as nat, TestPowerState::Standby)) } else { None },
        PowerState::PowerDown(id) => if id == 0 {
            Some((4nat, TestPowerState::Off))
        } else if id == 1 {
            Some((1nat, TestPowerState::Off))
        } else {
            None
        },
    }
}

/// The PSCI platform of the unit tests: its hooks do nothing and succeed.
pub struct TestPsciPlatformImpl;

impl PsciPlatformInterface for TestPsciPlatformImpl {
    type PlatformPowerState = TestPowerState;

    open spec fn spec_max_power_level() -> nat {
        TEST_MAX_POWER_LEVEL as nat
    }

    open spec fn spec_features() -> u64 {
        TEST_FEATURES
    }

    fn max_power_level() -> (r: usize) {
        TEST_MAX_POWER_LEVEL
    }

    fn features() -> (r: u64) {
        TEST_FEATURES
    }

    open spec fn spec_topology() -> Seq<usize> {
        seq![1usize, 2, 2, 2, 3, 3, 3, 4]
    }

    fn topology() -> (r: Vec<usize>) {
        let mut topology: Vec<usize> = Vec::new();
        topology.push(1);
        topology.push(2);
        topology.push(2);
        topology.push(2);
        topology.push(3);
        topology.push(3);
        topology.push(3);
        topology.push(4);
        assert(topology@ =~= seq![1usize, 2, 2, 2, 3, 3, 3, 4]);
        topology
    }

    open spec fn spec_parse_power_state(power_state: PowerState) -> Option<Seq<TestPowerState>> {
        match spec_test_power_state(power_state) {
            Some((n, low)) => Some(prefix_states(4, n, low, TestPowerState::Run)),
            None => None,
        }
    }

    fn try_parse_power_state(power_state: PowerState) -> (r: Option<PsciCompositePowerState<TestPowerState>>) {
        let (n, low) = match power_state {
            PowerState::StandbyOrRetention(id) => {
                if id <= 2 {
                    ((id + 1) as usize, TestPowerState::Standby)
                } else {
                    return None;
                }
            },
            PowerState::PowerDown(id) => {
                if id == 0 {
                    (4usize, TestPowerState::Off)
                } else if id == 1 {
                    (1usize, TestPowerState::Off)
                } else {
                    return None;
                }
            },
        };
        proof { lemma_prefix_states::<TestPowerState>(4, n as nat, low); }
        Some(PsciCompositePowerState::with_lower_levels(TEST_MAX_POWER_LEVEL, n, low))
    }

    fn cpu_standby(&self, cpu_state: TestPowerState) {
    }

    fn power_domain_suspend(&self, target_state: &PsciCompositePowerState<TestPowerState>) {
    }

    fn power_domain_suspend_finish(&self, previous_state: &PsciCompositePowerState<TestPowerState>) {
    }

    fn power_domain_off_early(&self, target_state: &PsciCompositePowerState<TestPowerState>) -> Result<(), ErrorCode> {
        Ok(())
    }

    fn power_domain_off(&self, target_state: &PsciCompositePowerState<TestPowerState>) {
    }

    fn power_domain_on(&self, mpidr: Mpidr) -> Result<(), ErrorCode> {
        Ok(())
    }

    fn power_domain_on_finish(&self, previous_state: &PsciCompositePowerState<TestPowerState>) {
    }

    fn system_off2(&self, off_type: SystemOff2Type, cookie: Cookie) -> Result<(), ErrorCode> {
        Ok(())
    }

    fn system_reset2(&self, reset_type: ResetType, cookie: Cookie) -> Result<(), ErrorCode> {
        Ok(())
    }

    fn mem_protect(&self, enabled: bool) -> Result<bool, ErrorCode> {
        Ok(true)
    }

    fn mem_protect_check_range(&self, range: MemProtectRange) -> Result<(), ErrorCode> {
        Ok(())
    }

    fn cpu_default_suspend_power_state(&self) -> (r: PowerState) {
        PowerState::StandbyOrRetention(0)
    }

    fn node_hw_state(&self, mpidr: Mpidr, power_level: u32) -> Result<HwState, ErrorCode> {
        Ok(HwState::Off)
    }

    fn sys_suspend_power_state(&self) -> (r: PsciCompositePowerState<TestPowerState>) {
        proof { lemma_prefix_states::<TestPowerState>(4, 4, TestPowerState::Off); }
        PsciCompositePowerState::with_lower_levels(TEST_MAX_POWER_LEVEL, 4, TestPowerState::Off)
    }

    open spec fn spec_is_valid_ns_entrypoint(&self, entry: EntryPoint) -> bool {
        true
    }

    fn is_valid_ns_entrypoint(&self, entry: &EntryPoint) -> (r: bool) {
        true
    }

    fn has_pending_interrupts(&self) -> bool {
        false
    }
}

} // verus!
