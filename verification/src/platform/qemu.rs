//! The aarch64 'virt' machine of the QEMU emulator.

use crate::context::EntryPointInfo;
use crate::platform::{affinity, spec_affinity, Platform};
use crate::services::arch::WorkaroundSupport;
use crate::services::psci::abi::{
    Cookie, EntryPoint, ErrorCode, HwState, MemProtectRange, Mpidr, PowerState, ResetType,
    SystemOff2Type,
};
use crate::services::psci::{
    lemma_prefix_states, try_get_cpu_index_by_mpidr,
    PlatformPowerStateInterface, PowerStateType, PsciCompositePowerState, PsciPlatformInterface,
};
use vstd::prelude::*;

verus! {

/// The number of clusters.
pub const CLUSTER_COUNT: usize = 1;
/// The log2 of the number of CPUs per cluster.
pub const PLATFORM_CPU_PER_CLUSTER_SHIFT: usize = 2;
/// The number of CPUs per cluster.
pub const MAX_CPUS_PER_CLUSTER: usize = 4;

/// The aarch64 'virt' machine of the QEMU emulator.
pub struct Qemu;

impl Platform for Qemu {
    open spec fn spec_core_count() -> nat {
        (CLUSTER_COUNT * MAX_CPUS_PER_CLUSTER) as nat
    }

    open spec fn spec_mpidr_is_valid(mpidr: u64) -> bool {
        &&& spec_affinity(mpidr, 3) == 0
        &&& spec_affinity(mpidr, 2) == 0
        &&& spec_affinity(mpidr, 1) < CLUSTER_COUNT
        &&& spec_affinity(mpidr, 0) < MAX_CPUS_PER_CLUSTER
    }

    /// ClusterId * 4 + CoreId.
    open spec fn spec_core_position(mpidr: u64) -> nat {
        (spec_affinity(mpidr, 1) * MAX_CPUS_PER_CLUSTER + spec_affinity(mpidr, 0)) as nat
    }

    proof fn lemma_core_position(mpidr: u64) {
    }

    fn core_count() -> (r: usize) {
        CLUSTER_COUNT * MAX_CPUS_PER_CLUSTER
    }

    fn mpidr_is_valid(mpidr: u64) -> (r: bool) {
        affinity(mpidr, 3) == 0 && affinity(mpidr, 2) == 0 && (affinity(mpidr, 1) as usize) < CLUSTER_COUNT
            && (affinity(mpidr, 0) as usize) < MAX_CPUS_PER_CLUSTER
    }

    fn core_position(mpidr: u64) -> (r: usize) {
        let a1 = affinity(mpidr, 1) as usize;
        let a0 = affinity(mpidr, 0) as usize;
        a1 * MAX_CPUS_PER_CLUSTER + a0
    }
    open spec fn spec_arch_workaround_1_supported() -> WorkaroundSupport {
        WorkaroundSupport::SafeButNotRequired
    }

    open spec fn spec_arch_workaround_2_supported() -> WorkaroundSupport {
        WorkaroundSupport::SafeButNotRequired
    }

    open spec fn spec_arch_workaround_3_supported() -> WorkaroundSupport {
        WorkaroundSupport::SafeButNotRequired
    }

    open spec fn spec_arch_workaround_4_supported() -> WorkaroundSupport {
        WorkaroundSupport::SafeButNotRequired
    }

    fn arch_workaround_1_supported() -> (r: WorkaroundSupport) {
        WorkaroundSupport::SafeButNotRequired
    }

    fn arch_workaround_1() {
    }

    fn arch_workaround_2_supported() -> (r: WorkaroundSupport) {
        WorkaroundSupport::SafeButNotRequired
    }

    fn arch_workaround_2() {
    }

    fn arch_workaround_3_supported() -> (r: WorkaroundSupport) {
        WorkaroundSupport::SafeButNotRequired
    }

    fn arch_workaround_3() {
    }

    fn arch_workaround_4_supported() -> (r: WorkaroundSupport) {
        WorkaroundSupport::SafeButNotRequired
    }
}

/// The power states of the QEMU power domains. The states are ordered from running to power
/// down: `On` is the shallowest state and `PowerDown` the deepest.
#[derive(Clone, Copy, Debug, PartialEq, Eq, Structural)]
pub enum QemuPowerState {
    /// Powered down.
    PowerDown,
    /// Standby.
    Standby,
    /// On.
    On,
}

impl PlatformPowerStateInterface for QemuPowerState {
    open spec fn spec_depth(&self) -> nat {
        match self {
            QemuPowerState::On => 0,
            QemuPowerState::Standby => 1,
            QemuPowerState::PowerDown => 2,
        }
    }

    open spec fn spec_type(&self) -> PowerStateType {
        match self {
            QemuPowerState::PowerDown => PowerStateType::PowerDown,
            QemuPowerState::Standby => PowerStateType::StandbyOrRetention,
            QemuPowerState::On => PowerStateType::Run,
        }
    }

    open spec fn spec_off() -> Self {
        QemuPowerState::PowerDown
    }

    open spec fn spec_run() -> Self {
        QemuPowerState::On
    }

    proof fn lemma_power_state_order(a: Self, b: Self) {
    }

    fn off() -> (r: Self) {
        QemuPowerState::PowerDown
    }

    fn run() -> (r: Self) {
        QemuPowerState::On
    }

    fn power_state_type(&self) -> (r: PowerStateType) {
        match self {
            QemuPowerState::PowerDown => PowerStateType::PowerDown,
            QemuPowerState::Standby => PowerStateType::StandbyOrRetention,
            QemuPowerState::On => PowerStateType::Run,
        }
    }

    fn depth(&self) -> (r: usize) {
        match self {
            QemuPowerState::On => 0,
            QemuPowerState::Standby => 1,
            QemuPowerState::PowerDown => 2,
        }
    }
}

/// The highest power level of the QEMU platform: the system.
pub const QEMU_MAX_POWER_LEVEL: usize = 2;

/// Returns the QEMU power domain topology in breadth-first order: one system node, its
/// clusters, and the CPUs of the cluster.
pub fn qemu_topology() -> (r: Vec<usize>)
    ensures
        r@ == seq![1usize, CLUSTER_COUNT, MAX_CPUS_PER_CLUSTER],
{
    let mut topology: Vec<usize> = Vec::new();
    topology.push(1);
    topology.push(CLUSTER_COUNT);
    topology.push(MAX_CPUS_PER_CLUSTER);
    assert(topology@ =~= seq![1usize, CLUSTER_COUNT, MAX_CPUS_PER_CLUSTER]);
    topology
}


/// The physical address of the SPMC manifest blob (none).
pub const TOS_FW_CONFIG_ADDRESS: u64 = 0;
/// The physical address of the hardware configuration (none).
pub const HW_CONFIG_ADDRESS: u64 = 0;

impl Qemu {
    /// The entry point of the secure world (BL32) on the core with the given linear index: at
    /// S-EL1 with D, A, I and F masked, with the core index in x4.
    pub fn secure_entry_point(core_linear_id: u64) -> (r: EntryPointInfo)
        ensures
            r.pc == 0x0e10_0000,
            r.spsr == 0x3C5,
            r.args@ == seq![TOS_FW_CONFIG_ADDRESS, HW_CONFIG_ADDRESS, 0, 0, core_linear_id, 0, 0, 0],
    {
        let r = EntryPointInfo {
            pc: 0x0e10_0000,
            spsr: 0x3C5,
            args: [TOS_FW_CONFIG_ADDRESS, HW_CONFIG_ADDRESS, 0, 0, core_linear_id, 0, 0, 0],
        };
        assert(r.args@ =~= seq![TOS_FW_CONFIG_ADDRESS, HW_CONFIG_ADDRESS, 0, 0, core_linear_id, 0, 0, 0]);
        r
    }

    /// The entry point of the normal world (BL33): at EL2 with D, A, I and F masked, without
    /// arguments.
    pub fn non_secure_entry_point() -> (r: EntryPointInfo)
        ensures
            r.pc == 0x6000_0000,
            r.spsr == 0x3C9,
            r.args@ == seq![0u64, 0, 0, 0, 0, 0, 0, 0],
    {
        let r = EntryPointInfo { pc: 0x6000_0000, spsr: 0x3C9, args: [0u64; 8] };
        assert(r.args@ =~= seq![0u64, 0, 0, 0, 0, 0, 0, 0]);
        r
    }
}

/// The hardware that the QEMU PSCI implementation drives: the current core, its GIC CPU interface,
/// and the trusted mailbox that releases secondary cores.
pub trait QemuPowerHardware {
    /// MPIDR_EL1 of the current core.
    fn current_mpidr_el1(&self) -> u64;
    /// Waits for an interrupt, after a barrier, in standby.
    fn standby_wfi(&self);
    /// Disables the GIC CPU interface of the current core.
    fn gic_cpu_interface_disable(&self);
    /// Writes the warm boot entry point to the mailbox, releases the core with the given linear
    /// index from its hold, and signals an event.
    fn release_core(&self, cpu_index: usize);
    /// Whether the current core has interrupts pending.
    fn has_pending_interrupts(&self) -> bool;
}

/// The QEMU PSCI implementation: core standby, core power down and secondary core release; no
/// optional feature, and no power state encoding for CPU_SUSPEND.
pub struct QemuPsciPlatformImpl<H: QemuPowerHardware> {
    /// The hardware.
    pub hardware: H,
}

impl<H: QemuPowerHardware> PsciPlatformInterface for QemuPsciPlatformImpl<H> {
    type PlatformPowerState = QemuPowerState;

    open spec fn spec_max_power_level() -> nat {
        QEMU_MAX_POWER_LEVEL as nat
    }

    open spec fn spec_features() -> u64 {
        0
    }

    fn max_power_level() -> (r: usize) {
        QEMU_MAX_POWER_LEVEL
    }

    fn features() -> (r: u64) {
        0
    }

    open spec fn spec_topology() -> Seq<usize> {
        seq![1usize, CLUSTER_COUNT, MAX_CPUS_PER_CLUSTER]
    }

    fn topology() -> (r: Vec<usize>) {
        qemu_topology()
    }

    open spec fn spec_parse_power_state(power_state: PowerState) -> Option<Seq<QemuPowerState>> {
        None
    }

    fn try_parse_power_state(power_state: PowerState) -> (r: Option<PsciCompositePowerState<QemuPowerState>>) {
        // The platform defines no power state encoding: no CPU_SUSPEND request is valid.
        None
    }

    fn cpu_standby(&self, cpu_state: QemuPowerState) {
        if cpu_state == QemuPowerState::Standby {
            self.hardware.standby_wfi();
        }
    }

    fn power_domain_suspend(&self, target_state: &PsciCompositePowerState<QemuPowerState>) {
    }

    fn power_domain_suspend_finish(&self, previous_state: &PsciCompositePowerState<QemuPowerState>) {
    }

    fn power_domain_off_early(&self, target_state: &PsciCompositePowerState<QemuPowerState>) -> Result<(), ErrorCode> {
        Ok(())
    }

    fn power_domain_off(&self, target_state: &PsciCompositePowerState<QemuPowerState>) {
        if target_state.states.len() > 0 && target_state.cpu_level_state() == QemuPowerState::PowerDown {
            self.hardware.gic_cpu_interface_disable();
        }
    }

    fn power_domain_on(&self, mpidr: Mpidr) -> Result<(), ErrorCode> {
        match try_get_cpu_index_by_mpidr::<Qemu>(mpidr, self.hardware.current_mpidr_el1()) {
            Some(cpu_index) => {
                self.hardware.release_core(cpu_index);
                Ok(())
            },
            None => Err(ErrorCode::InvalidParameters),
        }
    }

    fn power_domain_on_finish(&self, previous_state: &PsciCompositePowerState<QemuPowerState>) {
    }

    fn system_off2(&self, off_type: SystemOff2Type, cookie: Cookie) -> Result<(), ErrorCode> {
        Err(ErrorCode::NotSupported)
    }

    fn system_reset2(&self, reset_type: ResetType, cookie: Cookie) -> Result<(), ErrorCode> {
        Err(ErrorCode::NotSupported)
    }

    fn mem_protect(&self, enabled: bool) -> Result<bool, ErrorCode> {
        Err(ErrorCode::NotSupported)
    }

    fn mem_protect_check_range(&self, range: MemProtectRange) -> Result<(), ErrorCode> {
        Err(ErrorCode::NotSupported)
    }

    fn cpu_default_suspend_power_state(&self) -> (r: PowerState) {
        // CPU_DEFAULT_SUSPEND is not among the platform's features, so this is never asked for.
        PowerState::StandbyOrRetention(0)
    }

    fn node_hw_state(&self, mpidr: Mpidr, power_level: u32) -> Result<HwState, ErrorCode> {
        Err(ErrorCode::NotSupported)
    }

    fn sys_suspend_power_state(&self) -> (r: PsciCompositePowerState<QemuPowerState>) {
        // SYSTEM_SUSPEND is not among the platform's features, so this is never asked for: all
        // levels down.
        proof {
            lemma_prefix_states::<QemuPowerState>(3, 3, QemuPowerState::PowerDown);
        }
        PsciCompositePowerState::with_lower_levels(QEMU_MAX_POWER_LEVEL, 3, QemuPowerState::PowerDown)
    }

    open spec fn spec_is_valid_ns_entrypoint(&self, entry: EntryPoint) -> bool {
        true
    }

    fn is_valid_ns_entrypoint(&self, entry: &EntryPoint) -> (r: bool) {
        true
    }

    fn has_pending_interrupts(&self) -> bool {
        self.hardware.has_pending_interrupts()
    }
}

} // verus!
