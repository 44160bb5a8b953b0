use rf_a::context::{
    cpu_on_entry_points, initialise_common, initialise_contexts, update_contexts_suspend, CpuContext, El3State,
    EntryPointInfo, PerWorld, World, SCR_NS, SCR_NSE, SCR_ST, SCTLR_EL1_RES1,
};
use rf_a::exceptions::{
    create_spsr, find_exception_vector, inject_undef64, spsr_exception_level, target_el,
    ExceptionLevel, RunResult, ESR_IL,
};
use rf_a::gicv3::{interrupt_type, set_routing_model, InterruptType, SCR_FIQ, SCR_IRQ};
use rf_a::services::psci::abi::EntryPoint;
use rf_a::services::{
    interrupt_action, sysreg_trap_action, InterruptAction, RunLoop, RunPhase, SysregTrapAction,
};
use rf_a::smccc::SmcReturn;

#[test]
fn spsr_levels() {
    assert_eq!(spsr_exception_level(0b0000), ExceptionLevel::El0);
    assert_eq!(spsr_exception_level(0b0101), ExceptionLevel::El1);
    assert_eq!(spsr_exception_level(0b1001), ExceptionLevel::El2);
    assert_eq!(spsr_exception_level(0b1101), ExceptionLevel::El3);
}

#[test]
fn undef_target_el() {
    // EL2 takes its own exceptions.
    assert_eq!(target_el(ExceptionLevel::El2, 0, false), ExceptionLevel::El2);
    // EL1 goes to EL2 when TGE is set in the normal world...
    assert_eq!(target_el(ExceptionLevel::El1, 1, true), ExceptionLevel::El2);
    // ...but not from secure state without S-EL2.
    assert_eq!(target_el(ExceptionLevel::El1, 0, true), ExceptionLevel::El1);
    // Secure state with S-EL2 enabled.
    assert_eq!(target_el(ExceptionLevel::El0, 1 << 18, true), ExceptionLevel::El2);
    assert_eq!(target_el(ExceptionLevel::El0, 1, false), ExceptionLevel::El1);
}

#[test]
fn undef_vectors() {
    // From EL1 with SP_EL1 to EL1: current EL with SP_ELx.
    assert_eq!(find_exception_vector(0b0101, 0x1000, ExceptionLevel::El1), 0x1200);
    // From EL1 with SP_EL0 to EL1: current EL with SP_EL0.
    assert_eq!(find_exception_vector(0b0100, 0x1000, ExceptionLevel::El1), 0x1000);
    // From EL0 to EL1: lower EL.
    assert_eq!(find_exception_vector(0b0000, 0x1000, ExceptionLevel::El1), 0x1400);
}

#[test]
fn undef_spsr() {
    // DIT and NZCV are kept, everything else is replaced.
    let old = 0xF000_0000 | (1 << 24) | 0xFFF;
    assert_eq!(create_spsr(old, ExceptionLevel::El1), 0xF100_03C5);
    assert_eq!(create_spsr(0, ExceptionLevel::El2), 0x3C9);
}

#[test]
fn undef_injection() {
    let mut state = El3State::empty();
    state.scr_el3 = 1;
    state.spsr_el3 = 0x6000_0000 | 0b0101;
    state.elr_el3 = 0x8000_1234;
    let injection = inject_undef64(&mut state, false, 0x9000_0000, 0xA000_0000);
    assert_eq!(injection.target_el, ExceptionLevel::El1);
    assert_eq!(injection.elr, 0x8000_1234);
    assert_eq!(injection.esr, ESR_IL);
    assert_eq!(injection.spsr, 0x6000_0005);
    assert_eq!(state.spsr_el3, 0x6000_03C5);
    assert_eq!(state.elr_el3, 0x9000_0200);
    assert_eq!(state.scr_el3, 1);
}

#[test]
fn run_result_from_exit() {
    let regs = [7u64; 18];
    assert!(matches!(RunResult::from_exit(0, regs, 0), Some(RunResult::Smc { regs: [7, ..] })));
    assert!(matches!(RunResult::from_exit(1, regs, 0), Some(RunResult::Interrupt)));
    assert!(matches!(
        RunResult::from_exit(2, regs, 0x12345),
        Some(RunResult::SysregTrap { esr: 0x12345 })
    ));
    assert!(RunResult::from_exit(3, regs, 0).is_none());
}

#[test]
fn routing_model() {
    let mut scr = SCR_IRQ;
    set_routing_model(&mut scr, World::NonSecure);
    assert_eq!(scr, SCR_FIQ);
    let mut scr = SCR_IRQ | SCR_FIQ | 1;
    set_routing_model(&mut scr, World::Secure);
    assert_eq!(scr, 1);
}

#[test]
fn pending_interrupt_types() {
    assert_eq!(interrupt_type(1023), InterruptType::Invalid);
    assert_eq!(interrupt_type(1020), InterruptType::Secure);
    assert_eq!(interrupt_type(1021), InterruptType::NonSecure);
    assert_eq!(interrupt_type(8), InterruptType::El3);
}

#[test]
fn interrupt_actions() {
    assert_eq!(interrupt_action(InterruptType::Secure, World::NonSecure), InterruptAction::ForwardToSpmc);
    assert_eq!(interrupt_action(InterruptType::El3, World::NonSecure), InterruptAction::HandleGroup0);
    assert_eq!(interrupt_action(InterruptType::Invalid, World::Secure), InterruptAction::Resume);
    assert_eq!(sysreg_trap_action(0x1234), SysregTrapAction::InjectUndef);
}

#[test]
fn run_loop_order() {
    let (mut run_loop, first) = RunLoop::start();
    assert_eq!(first.world, World::Secure);
    assert_eq!(first.switch_from, None);
    let realm = run_loop.world_exited(World::NonSecure);
    assert_eq!(realm.world, World::Realm);
    assert_eq!(realm.switch_from, Some(World::Secure));
    let normal = run_loop.world_exited(World::NonSecure);
    assert_eq!(normal.world, World::NonSecure);
    assert_eq!(normal.switch_from, Some(World::Realm));
    assert!(normal.first_entry);
    let secure = run_loop.world_exited(World::Secure);
    assert_eq!(secure.world, World::Secure);
    assert_eq!(secure.switch_from, Some(World::NonSecure));
    assert!(!secure.first_entry);
    assert_eq!(run_loop.phase, RunPhase::Runtime(World::Secure));
}

fn entry(pc: usize, first_arg: u64) -> EntryPointInfo {
    EntryPointInfo { pc, spsr: 0x3C9, args: [first_arg, 1, 2, 3, 4, 5, 6, 7] }
}

#[test]
fn contexts_initialised() {
    let mut context = CpuContext::new();
    context.gpregs.registers[20] = 99;
    initialise_common(&mut context, &entry(0x8800_0000, 42));
    assert_eq!(context.el3_state.elr_el3, 0x8800_0000);
    assert_eq!(context.el3_state.spsr_el3, 0x3C9);
    assert_eq!(context.el3_state.scr_el3, 0x30 | (1 << 8) | (1 << 3) | (1 << 9) | (1 << 10));
    assert_eq!(context.gpregs.registers[0], 42);
    assert_eq!(context.gpregs.registers[7], 7);
    assert_eq!(context.gpregs.registers[20], 99);
    assert_eq!(context.el1_sysregs.sctlr_el1, SCTLR_EL1_RES1);

    let mut state = PerWorld([CpuContext::new(), CpuContext::new(), CpuContext::new()]);
    initialise_contexts(&mut state, &entry(0x8800_0000, 1), &entry(0x0600_0000, 2), &entry(0xfdc0_0000, 3));
    let common = 0x30 | (1 << 8) | (1 << 3) | (1 << 9) | (1 << 10);
    assert_eq!(state.get(World::NonSecure).el3_state.scr_el3, common | SCR_NS | SCR_FIQ);
    assert_eq!(state.get(World::Secure).el3_state.scr_el3, common | SCR_ST);
    assert_eq!(state.get(World::Realm).el3_state.scr_el3, common | SCR_NS | SCR_NSE);
    assert_eq!(state.get(World::Secure).el3_state.elr_el3, 0x0600_0000);
}

#[test]
fn contexts_after_suspend() {
    let mut state = PerWorld([CpuContext::new(), CpuContext::new(), CpuContext::new()]);
    state.0[1].gpregs.registers[3] = 5;
    let secure_args = SmcReturn::from_slice(&[9u64; 18]);
    let entry = EntryPoint::Entry64 { entry_point_address: 0x8000_0000, context_id: 0x55 };
    update_contexts_suspend(&mut state, entry, &secure_args);
    assert_eq!(state.get(World::NonSecure).el3_state.elr_el3, 0x8000_0000);
    assert_eq!(state.get(World::NonSecure).gpregs.registers[0], 0x55);
    assert_eq!(state.get(World::NonSecure).gpregs.registers[3], 0);
    assert_eq!(state.get(World::Secure).gpregs.registers[17], 9);
    assert_eq!(state.get(World::Secure).gpregs.registers[18], 0);
}

#[test]
fn cpu_on_entry_points_of_psci_entry() {
    let ns = EntryPointInfo { pc: 0x8800_0000, spsr: 0x3C9, args: [1, 2, 3, 4, 5, 6, 7, 8] };
    let s = EntryPointInfo { pc: 0x0600_0000, spsr: 0x3C5, args: [9; 8] };
    let entry = EntryPoint::Entry64 { entry_point_address: 0x8000_1000, context_id: 0x42 };
    let (ns_on, s_on) = cpu_on_entry_points(entry, &ns, &s, 0x0600_0100);
    assert_eq!(ns_on.pc, 0x8000_1000);
    assert_eq!(ns_on.spsr, 0x3C9);
    assert_eq!(ns_on.args, [0x42, 0, 0, 0, 0, 0, 0, 0]);
    assert_eq!(s_on.pc, 0x0600_0100);
    assert_eq!(s_on.spsr, 0x3C5);
    assert_eq!(s_on.args, [0; 8]);
}
