use rf_a::platform::fvp::{
    fvp_power_down_plan, fvp_raw_mpidr, fvp_status_level, FvpAffinityStatus, FvpPowerDownPlan,
    FvpPowerHardware, FvpPowerState, FvpPsciPlatformImpl,
};
use rf_a::platform::qemu::{QemuPowerHardware, QemuPowerState, QemuPsciPlatformImpl};
use rf_a::services::psci::abi::{EntryPoint, ErrorCode, HwState, Mpidr, PowerState};
use rf_a::services::psci::{PsciCompositePowerState, PsciPlatformInterface};
use std::cell::RefCell;

/// Records the hardware operations, and reports the cores with MPIDR bit 0 clear as on.
#[derive(Default)]
struct Recorder {
    calls: RefCell<Vec<String>>,
}

impl Recorder {
    fn log(&self, s: &str) {
        self.calls.borrow_mut().push(s.to_string());
    }
    fn take(&self) -> Vec<String> {
        std::mem::take(&mut *self.calls.borrow_mut())
    }
}

impl FvpPowerHardware for Recorder {
    fn current_mpidr(&self) -> u32 {
        0x101
    }
    fn standby_wfi(&self) {
        self.log("wfi");
    }
    fn enable_wakeup_requests(&self, mpidr: u32) {
        self.log(&format!("wake on {mpidr:#x}"));
    }
    fn disable_wakeup_requests(&self, mpidr: u32) {
        self.log(&format!("wake off {mpidr:#x}"));
    }
    fn power_off_cluster(&self, mpidr: u32) {
        self.log(&format!("cluster off {mpidr:#x}"));
    }
    fn power_off_processor(&self, mpidr: u32) {
        self.log(&format!("cpu off {mpidr:#x}"));
    }
    fn wait_for_processor_off(&self, mpidr: u32) {
        self.log(&format!("wait {mpidr:#x}"));
    }
    fn power_on_processor(&self, mpidr: u32) {
        self.log(&format!("cpu on {mpidr:#x}"));
    }
    fn affinity_on(&self, mpidr: u32, level: FvpAffinityStatus) -> bool {
        self.log(&format!("status {mpidr:#x} {level:?}"));
        mpidr & 2 == 0
    }
    fn gic_cpu_interface_disable(&self) {
        self.log("gicc off");
    }
    fn gic_cpu_interface_enable(&self) {
        self.log("gicc on");
    }
    fn gic_redistributor_off(&self) {
        self.log("gicr off");
    }
    fn gic_redistributor_init(&self) {
        self.log("gicr init");
    }
    fn save_system_power_domain(&self) {
        self.log("save");
    }
    fn restore_system_power_domain(&self) {
        self.log("restore");
    }
    fn set_counter_frequency(&self) {
        self.log("cntfrq");
    }
    fn has_pending_interrupts(&self) -> bool {
        false
    }
}

fn states(s: [FvpPowerState; 3]) -> PsciCompositePowerState<FvpPowerState> {
    PsciCompositePowerState::new(s.to_vec())
}

use FvpPowerState::{Off, Retention, Run};

#[test]
fn fvp_power_down_plans() {
    assert_eq!(
        fvp_power_down_plan(&states([Retention, Run, Run])),
        FvpPowerDownPlan { processor_off: false, cluster_off: false, system_off: false }
    );
    assert_eq!(
        fvp_power_down_plan(&states([Off, Off, Run])),
        FvpPowerDownPlan { processor_off: true, cluster_off: true, system_off: false }
    );
    assert_eq!(
        fvp_power_down_plan(&states([Off, Off, Off])),
        FvpPowerDownPlan { processor_off: true, cluster_off: true, system_off: true }
    );
}

#[test]
fn fvp_suspend_and_resume_steps() {
    let platform = FvpPsciPlatformImpl { hardware: Recorder::default() };
    platform.power_domain_suspend(&states([Retention, Run, Run]));
    assert!(platform.hardware.take().is_empty());
    platform.power_domain_suspend(&states([Off, Off, Off]));
    assert_eq!(
        platform.hardware.take(),
        ["wake on 0x101", "gicc off", "cluster off 0x101", "save", "cpu off 0x101"]
    );
    platform.power_domain_suspend_finish(&states([Off, Off, Off]));
    assert_eq!(
        platform.hardware.take(),
        ["cpu on 0x101", "restore", "wake off 0x101", "cntfrq", "gicc on"]
    );
    platform.power_domain_off(&states([Off, Run, Run]));
    assert_eq!(platform.hardware.take(), ["gicc off", "gicr off", "cpu off 0x101"]);
    platform.power_domain_on_finish(&states([Off, Run, Run]));
    assert_eq!(platform.hardware.take(), ["wake off 0x101", "cntfrq", "gicr init", "gicc on"]);
    platform.cpu_standby(Retention);
    assert_eq!(platform.hardware.take(), ["wfi"]);
}

#[test]
fn fvp_power_on_and_hw_state() {
    let platform = FvpPsciPlatformImpl { hardware: Recorder::default() };
    let mpidr = Mpidr { aff0: 1, aff1: 1, aff2: 0, aff3: Some(0) };
    assert_eq!(platform.power_domain_on(mpidr), Ok(()));
    assert_eq!(platform.hardware.take(), ["wait 0x101", "cpu on 0x101"]);
    let far = Mpidr { aff0: 0, aff1: 0, aff2: 0, aff3: Some(1) };
    assert_eq!(platform.power_domain_on(far), Err(ErrorCode::InvalidParameters));
    assert_eq!(fvp_raw_mpidr(far), Err(ErrorCode::InvalidParameters));
    assert_eq!(fvp_raw_mpidr(Mpidr { aff0: 3, aff1: 2, aff2: 1, aff3: None }), Ok(0x01_02_03));

    assert_eq!(fvp_status_level(0x100, 0), Some(FvpAffinityStatus::L0));
    assert_eq!(fvp_status_level(0x100, 1), Some(FvpAffinityStatus::L1));
    assert_eq!(fvp_status_level(0x101, 1), Some(FvpAffinityStatus::L1));
    assert_eq!(fvp_status_level(0x0100_0000, 1), Some(FvpAffinityStatus::L2));
    assert_eq!(fvp_status_level(0x100, 2), None);
    let core = Mpidr { aff0: 0, aff1: 1, aff2: 0, aff3: None };
    assert_eq!(platform.node_hw_state(core, 0), Ok(HwState::On));
    let other = Mpidr { aff0: 2, aff1: 1, aff2: 0, aff3: None };
    assert_eq!(platform.node_hw_state(other, 0), Ok(HwState::Off));
    assert_eq!(platform.node_hw_state(core, 2), Err(ErrorCode::InvalidParameters));
}

#[test]
fn fvp_power_states_and_entry_points() {
    let parsed = FvpPsciPlatformImpl::<Recorder>::try_parse_power_state(PowerState::PowerDown(0x022)).unwrap();
    assert_eq!(parsed.states, vec![Off, Off, Run]);
    assert!(FvpPsciPlatformImpl::<Recorder>::try_parse_power_state(PowerState::StandbyOrRetention(2)).is_none());
    let platform = FvpPsciPlatformImpl { hardware: Recorder::default() };
    assert_eq!(platform.sys_suspend_power_state().states, vec![Off, Off, Off]);
    let entry = |a: u64| EntryPoint::Entry64 { entry_point_address: a, context_id: 0 };
    assert!(platform.is_valid_ns_entrypoint(&entry(0x8800_0000)));
    assert!(platform.is_valid_ns_entrypoint(&entry(0x0F_FFFF_FFFF)));
    assert!(!platform.is_valid_ns_entrypoint(&entry(0x7FFF_FFFF)));
    assert!(!platform.is_valid_ns_entrypoint(&entry(0x1_0000_0000)));
    assert_eq!(FvpPsciPlatformImpl::<Recorder>::topology(), vec![1, 2, 4, 4]);
}

struct QemuMailbox {
    released: RefCell<Vec<usize>>,
}

impl QemuPowerHardware for QemuMailbox {
    fn current_mpidr_el1(&self) -> u64 {
        0x8000_0000
    }
    fn standby_wfi(&self) {}
    fn gic_cpu_interface_disable(&self) {}
    fn release_core(&self, cpu_index: usize) {
        self.released.borrow_mut().push(cpu_index);
    }
    fn has_pending_interrupts(&self) -> bool {
        false
    }
}

#[test]
fn qemu_power_on_releases_core() {
    let platform = QemuPsciPlatformImpl { hardware: QemuMailbox { released: RefCell::new(vec![]) } };
    assert_eq!(platform.power_domain_on(Mpidr { aff0: 3, aff1: 0, aff2: 0, aff3: None }), Ok(()));
    assert_eq!(platform.power_domain_on(Mpidr { aff0: 4, aff1: 0, aff2: 0, aff3: None }), Err(ErrorCode::InvalidParameters));
    assert_eq!(*platform.hardware.released.borrow(), vec![3]);
    assert!(QemuPsciPlatformImpl::<QemuMailbox>::try_parse_power_state(PowerState::PowerDown(0)).is_none());
    assert_eq!(
        platform.sys_suspend_power_state().states,
        vec![QemuPowerState::PowerDown, QemuPowerState::PowerDown, QemuPowerState::PowerDown]
    );
}
