//! Exceptions between EL3 and the lower exception levels: why a lower EL returned to EL3, and the
//! injection of an undefined instruction exception into a lower EL that accessed a system register
//! of which EL3 is unaware.

use crate::context::El3State;
use vstd::prelude::*;

verus! {

/// An AArch64 exception level.
#[derive(Clone, Copy, Debug, Eq, PartialEq, Structural)]
pub enum ExceptionLevel {
    /// Exception level 0.
    El0,
    /// Exception level 1.
    El1,
    /// Exception level 2.
    El2,
    /// Exception level 3.
    El3,
}

/// The number of the exception level.
pub open spec fn el_number(el: ExceptionLevel) -> int {
    match el {
        ExceptionLevel::El0 => 0,
        ExceptionLevel::El1 => 1,
        ExceptionLevel::El2 => 2,
        ExceptionLevel::El3 => 3,
    }
}

/// SPSR.M\[4\]: the exception was taken from AArch32.
pub const SPSR_M_EXECUTION_STATE: u64 = 1 << 4;
/// SPSR.M\[3:0\] for AArch64 EL1 using SP_EL1.
pub const SPSR_M_AARCH64_EL1H: u64 = 0b0101;
/// SPSR.M\[3:0\] for AArch64 EL2 using SP_EL2.
pub const SPSR_M_AARCH64_EL2H: u64 = 0b1001;
/// SPSR.F: FIQ mask.
pub const SPSR_F: u64 = 1 << 6;
/// SPSR.I: IRQ mask.
pub const SPSR_I: u64 = 1 << 7;
/// SPSR.A: SError mask.
pub const SPSR_A: u64 = 1 << 8;
/// SPSR.D: debug exception mask.
pub const SPSR_D: u64 = 1 << 9;
/// SPSR.DIT: data independent timing.
pub const SPSR_DIT: u64 = 1 << 24;
/// SPSR.{N,Z,C,V}: the condition flags.
pub const SPSR_NZCV: u64 = 0xF000_0000;

/// SCR_EL3.NS: the lower ELs are non-secure.
pub const SCR_NS: u64 = 1 << 0;
/// SCR_EL3.EEL2: secure EL2 is enabled.
pub const SCR_EEL2: u64 = 1 << 18;

/// ESR.IL: the trapped instruction was 32 bits long.
pub const ESR_IL: u64 = 1 << 25;

/// Offset of the exception vectors for exceptions from the current EL using SP_EL0.
pub const CURRENT_EL_SP0: usize = 0x0;
/// Offset of the exception vectors for exceptions from the current EL using SP_ELx.
pub const CURRENT_EL_SPX: usize = 0x200;
/// Offset of the exception vectors for exceptions from a lower EL in AArch64.
pub const LOWER_EL_AARCH64: usize = 0x400;

/// The exception level that an SPSR value returns to: M\[3:2\].
pub open spec fn spec_spsr_el(spsr: u64) -> ExceptionLevel {
    let m = (spsr >> 2u64) & 3;
    if m == 0 {
        ExceptionLevel::El0
    } else if m == 1 {
        ExceptionLevel::El1
    } else if m == 2 {
        ExceptionLevel::El2
    } else {
        ExceptionLevel::El3
    }
}

/// Returns the exception level that an SPSR value returns to.
pub fn spsr_exception_level(spsr: u64) -> (r: ExceptionLevel)
    ensures
        r == spec_spsr_el(spsr),
{
    let m = (spsr >> 2u64) & 3;
    if m == 0 {
        ExceptionLevel::El0
    } else if m == 1 {
        ExceptionLevel::El1
    } else if m == 2 {
        ExceptionLevel::El2
    } else {
        ExceptionLevel::El3
    }
}

/// Whether an SPSR value returns to a mode using SP_ELx rather than SP_EL0: M\[0\].
pub open spec fn spec_spsr_uses_sp_elx(spsr: u64) -> bool {
    spsr & 1 == 1
}

/// Returns whether an SPSR value returns to a mode using SP_ELx rather than SP_EL0.
pub fn spsr_uses_sp_elx(spsr: u64) -> (r: bool)
    ensures
        r == spec_spsr_uses_sp_elx(spsr),
{
    spsr & 1 == 1
}

/// Whether a trap from secure state comes from a system without secure EL2: neither SCR_EL3.NS
/// nor SCR_EL3.EEL2 is set.
pub open spec fn spec_is_secure_trap_without_sel2(scr: u64) -> bool {
    scr & SCR_NS == 0 && scr & SCR_EEL2 == 0
}

/// Returns whether we are in secure state on a system without S-EL2. This keeps undefined
/// instruction injection out of a non-existent S-EL2, when a trap from S-EL1 or S-EL0 finds the
/// normal world's HCR_EL2.TGE set.
pub fn is_secure_trap_without_sel2(scr: u64) -> (r: bool)
    ensures
        r == spec_is_secure_trap_without_sel2(scr),
{
    scr & SCR_NS == 0 && scr & SCR_EEL2 == 0
}

/// The exception level at which an exception is injected, for one taken from `from_el`: EL2 and
/// EL3 take their own; EL1 and EL0 go to EL2 where HCR_EL2.TGE routes them there (except secure
/// state without S-EL2), else to EL1.
pub open spec fn spec_target_el(from_el: ExceptionLevel, scr: u64, tge_enabled: bool) -> ExceptionLevel {
    if el_number(from_el) > 1 {
        from_el
    } else if tge_enabled && !spec_is_secure_trap_without_sel2(scr) {
        ExceptionLevel::El2
    } else {
        ExceptionLevel::El1
    }
}

/// Returns the exception level at which an exception should be injected, based on the exception
/// level which caused the original exception and whether HCR_EL2.TGE is in effect.
pub fn target_el(from_el: ExceptionLevel, scr: u64, tge_enabled: bool) -> (r: ExceptionLevel)
    ensures
        r == spec_target_el(from_el, scr, tge_enabled),
{
    match from_el {
        ExceptionLevel::El2 | ExceptionLevel::El3 => from_el,
        _ => if tge_enabled && !is_secure_trap_without_sel2(scr) {
            ExceptionLevel::El2
        } else {
            ExceptionLevel::El1
        },
    }
}

/// The exception vector at the target EL: the current EL vectors (for SP_ELx or SP_EL0) if the
/// exception stays at the EL it came from, else the lower EL AArch64 vectors.
pub open spec fn spec_exception_vector(spsr_el3: u64, vbar: usize, target_el: ExceptionLevel) -> int {
    if spec_spsr_el(spsr_el3) == target_el {
        if spec_spsr_uses_sp_elx(spsr_el3) {
            vbar + CURRENT_EL_SPX
        } else {
            vbar + CURRENT_EL_SP0
        }
    } else {
        vbar + LOWER_EL_AARCH64
    }
}

/// Calculates the exception vector which should be run at the lower EL.
pub fn find_exception_vector(spsr_el3: u64, vbar: usize, target_el: ExceptionLevel) -> (r: usize)
    requires
        vbar + LOWER_EL_AARCH64 <= usize::MAX,
    ensures
        r == spec_exception_vector(spsr_el3, vbar, target_el),
{
    let outgoing_el = spsr_exception_level(spsr_el3);
    if outgoing_el == target_el {
        if spsr_uses_sp_elx(spsr_el3) {
            vbar + CURRENT_EL_SPX
        } else {
            vbar + CURRENT_EL_SP0
        }
    } else {
        vbar + LOWER_EL_AARCH64
    }
}

/// The vector that an exception injected at `target_el` starts at, by where it comes from (the
/// EL in M[3:2] of SPSR_EL3 and the stack pointer in M[0]): from the target EL itself it is the
/// current EL vector, at VBAR + 0x200 with SP_ELx and at VBAR with SP_EL0; from a lower EL it is
/// the lower EL AArch64 vector at VBAR + 0x400.
pub proof fn lemma_exception_vector_by_origin(spsr_el3: u64, vbar: usize, target_el: ExceptionLevel)
    ensures
        (spsr_el3 >> 2u64) & 3 == el_number(target_el) && spsr_el3 & 1 == 1 ==> spec_exception_vector(
            spsr_el3,
            vbar,
            target_el,
        ) == vbar + 0x200,
        (spsr_el3 >> 2u64) & 3 == el_number(target_el) && spsr_el3 & 1 == 0 ==> spec_exception_vector(
            spsr_el3,
            vbar,
            target_el,
        ) == vbar,
        (spsr_el3 >> 2u64) & 3 < el_number(target_el) ==> spec_exception_vector(spsr_el3, vbar, target_el)
            == vbar + 0x400,
{
    let m = (spsr_el3 >> 2u64) & 3;
    assert(m < 4) by (bit_vector)
        requires
            m == (spsr_el3 >> 2u64) & 3,
    ;
}

/// The SPSR with which the exception is taken at the target EL (after the architecture's
/// `AArch64.TakeException`): AArch64 with SP_ELx at the target EL, all of D, A, I and F masked,
/// DIT and the condition flags as before, and every other bit (BTYPE among them) clear.
pub open spec fn spec_create_spsr(old_spsr: u64, target_el: ExceptionLevel) -> u64 {
    (if target_el == ExceptionLevel::El2 { SPSR_M_AARCH64_EL2H } else { SPSR_M_AARCH64_EL1H })
        | SPSR_D | SPSR_A | SPSR_I | SPSR_F
        | (old_spsr & SPSR_DIT)
        | (old_spsr & SPSR_NZCV)
}

/// Explicitly creates all bits of SPSR to get PSTATE at exception return.
pub fn create_spsr(old_spsr: u64, target_el: ExceptionLevel) -> (r: u64)
    ensures
        r == spec_create_spsr(old_spsr, target_el),
{
    let mut new_spsr: u64 = 0;

    // Set M bits for target EL in AArch64 mode.
    if target_el == ExceptionLevel::El2 {
        new_spsr = new_spsr | SPSR_M_AARCH64_EL2H;
    } else {
        new_spsr = new_spsr | SPSR_M_AARCH64_EL1H;
    }

    // Mask all exceptions, update DAIF bits.
    new_spsr = new_spsr | SPSR_D | SPSR_A | SPSR_I | SPSR_F;

    // DIT bits are unchanged.
    new_spsr = new_spsr | (old_spsr & SPSR_DIT);

    // NZCV bits are unchanged.
    new_spsr = new_spsr | (old_spsr & SPSR_NZCV);

    // BTYPE bits are cleared, so that BTI does not trigger on the exception return.
    proof {
        let m: u64 = if target_el == ExceptionLevel::El2 { SPSR_M_AARCH64_EL2H } else { SPSR_M_AARCH64_EL1H };
        assert(0u64 | m == m) by (bit_vector);
    }
    new_spsr
}

/// The values that the target EL's registers take when an undefined instruction exception is
/// injected into it.
#[derive(Clone, Copy, Debug, Eq, PartialEq, Structural)]
pub struct UndefInjection {
    /// The exception level that takes the exception.
    pub target_el: ExceptionLevel,
    /// Its ELR: the address of the trapped instruction.
    pub elr: usize,
    /// Its ESR: an unknown reason, with the IL bit.
    pub esr: u64,
    /// Its SPSR: the PSTATE of the trapped code.
    pub spsr: u64,
}

/// Whether an undefined instruction exception can be injected for the trap that `el3_state`
/// saved: it came from AArch64, from below EL3, and the exception vectors are addressable.
pub open spec fn can_inject_undef(el3_state: El3State, vbar_el1: usize, vbar_el2: usize) -> bool {
    &&& el3_state.spsr_el3 & SPSR_M_EXECUTION_STATE == 0
    &&& spec_spsr_el(el3_state.spsr_el3) != ExceptionLevel::El3
    &&& vbar_el1 + LOWER_EL_AARCH64 <= usize::MAX
    &&& vbar_el2 + LOWER_EL_AARCH64 <= usize::MAX
}

/// Injects an undefined instruction exception into the lower EL whose trap `el3_state` saved:
/// returns the values for the ELR, ESR and SPSR of the target EL, and makes the exception return
/// enter the target EL's exception vector (VBAR_EL1 or VBAR_EL2) with the SPSR that taking the
/// exception gives. This is the safety net for a lower EL that accesses a system register of which
/// EL3 is unaware.
pub fn inject_undef64(el3_state: &mut El3State, tge_enabled: bool, vbar_el1: usize, vbar_el2: usize) -> (r: UndefInjection)
    requires
        can_inject_undef(*old(el3_state), vbar_el1, vbar_el2),
    ensures
        r.target_el == spec_target_el(spec_spsr_el(old(el3_state).spsr_el3), old(el3_state).scr_el3, tge_enabled),
        r.target_el == ExceptionLevel::El1 || r.target_el == ExceptionLevel::El2,
        r.elr == old(el3_state).elr_el3,
        r.esr == ESR_IL,
        r.spsr == old(el3_state).spsr_el3,
        final(el3_state).spsr_el3 == spec_create_spsr(old(el3_state).spsr_el3, r.target_el),
        final(el3_state).elr_el3 == spec_exception_vector(
            old(el3_state).spsr_el3,
            if r.target_el == ExceptionLevel::El1 { vbar_el1 } else { vbar_el2 },
            r.target_el,
        ),
        *final(el3_state) == (El3State {
            spsr_el3: final(el3_state).spsr_el3,
            elr_el3: final(el3_state).elr_el3,
            ..*old(el3_state)
        }),
{
    let elr_el3 = el3_state.elr_el3;
    let old_spsr = el3_state.spsr_el3;
    let to_el = target_el(spsr_exception_level(old_spsr), el3_state.scr_el3, tge_enabled);

    let vbar = match to_el {
        ExceptionLevel::El1 => vbar_el1,
        _ => vbar_el2,
    };

    el3_state.spsr_el3 = create_spsr(old_spsr, to_el);
    el3_state.elr_el3 = find_exception_vector(old_spsr, vbar, to_el);
    UndefInjection { target_el: to_el, elr: elr_el3, esr: ESR_IL, spsr: old_spsr }
}

/// The reason why execution returned to EL3 after running a lower EL.
#[derive(Clone, Copy, Debug)]
pub enum RunResult {
    /// A lower EL has executed an SMC instruction, with these x0-x17.
    Smc { regs: [u64; 18] },
    /// An IRQ or FIQ routed to EL3 has been triggered while running in a lower EL.
    Interrupt,
    /// A lower EL tried to access a system register that was trapped to EL3; the ESR value.
    SysregTrap { esr: u64 },
}

/// The return reason code of an SMC.
pub const RUN_RESULT_SMC: u64 = 0;
/// The return reason code of an interrupt.
pub const RUN_RESULT_INTERRUPT: u64 = 1;
/// The return reason code of a trapped system register access.
pub const RUN_RESULT_SYSREG_TRAP: u64 = 2;

impl RunResult {
    /// The result that the exit code reports with the return reason, the registers and the
    /// syndrome, or `None` for an unknown return reason.
    pub open spec fn spec_from_exit(return_reason: u64, out_values: [u64; 18], esr: u64) -> Option<RunResult> {
        if return_reason == RUN_RESULT_SMC {
            Some(RunResult::Smc { regs: out_values })
        } else if return_reason == RUN_RESULT_INTERRUPT {
            Some(RunResult::Interrupt)
        } else if return_reason == RUN_RESULT_SYSREG_TRAP {
            Some(RunResult::SysregTrap { esr })
        } else {
            None
        }
    }

    /// Returns the result that the exit code reports.
    pub fn from_exit(return_reason: u64, out_values: [u64; 18], esr: u64) -> (r: Option<RunResult>)
        ensures
            r == Self::spec_from_exit(return_reason, out_values, esr),
    {
        if return_reason == RUN_RESULT_SMC {
            Some(RunResult::Smc { regs: out_values })
        } else if return_reason == RUN_RESULT_INTERRUPT {
            Some(RunResult::Interrupt)
        } else if return_reason == RUN_RESULT_SYSREG_TRAP {
            Some(RunResult::SysregTrap { esr })
        } else {
            None
        }
    }
}

} // verus!
