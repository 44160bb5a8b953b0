//! Per-world CPU state: the security states of the system, and for each of them the context of
//! the lower exception levels that EL3 keeps: general purpose registers, EL3 state and EL1 system
//! registers, and how they are initialised for the first boot and after a suspend.

use crate::gicv3::{set_routing_model, spec_routing_model};
use crate::services::psci::abi::EntryPoint;
use crate::smccc::SmcReturn;
use vstd::prelude::*;

verus! {

/// The number of contexts stored for each CPU core, one per security state.
pub const CPU_DATA_CONTEXT_NUM: usize = 3;

/// A security state in which lower exception levels run.
#[derive(Copy, Clone, Debug, Eq, PartialEq, Structural)]
pub enum World {
    /// Secure world.
    Secure,
    /// Non-secure (normal) world.
    NonSecure,
    /// Realm world.
    Realm,
}

/// The index of a world in per-world arrays; it matches the value used by the assembly code.
pub open spec fn world_index(world: World) -> int {
    match world {
        World::Secure => 0,
        World::NonSecure => 1,
        World::Realm => 2,
    }
}

impl World {
    /// Returns the index of the world in per-world arrays.
    pub fn index(self) -> (r: usize)
        ensures
            r == world_index(self),
            r < CPU_DATA_CONTEXT_NUM,
    {
        match self {
            World::Secure => 0,
            World::NonSecure => 1,
            World::Realm => 2,
        }
    }
}

/// One `T` for each world.
pub struct PerWorld<T>(pub [T; 3]);

impl<T> PerWorld<T> {
    /// The value for each world, indexed by `world_index`.
    pub open spec fn view(&self) -> Seq<T> {
        self.0@
    }

    /// Returns the value of the given world.
    pub fn get(&self, world: World) -> (r: &T)
        ensures
            *r == self@[world_index(world)],
    {
        &self.0[world.index()]
    }

    /// Replaces the value of the given world.
    pub fn set(&mut self, world: World, value: T)
        ensures
            final(self)@ == old(self)@.update(world_index(world), value),
    {
        let i = world.index();
        self.0.set(i, value);
    }
}

/// The number of (64-bit) registers included in `GpRegs`: x0-x30 and SP_EL0.
pub const GP_REGS_COUNT: usize = 32;

/// AArch64 general purpose register context of a lower exception level.
#[derive(Clone, Debug)]
pub struct GpRegs {
    /// x0-x30 followed by SP_EL0.
    pub registers: [u64; 32],
}

impl GpRegs {
    /// A context with every register zero.
    pub fn new() -> (r: Self)
        ensures
            forall|i: int| 0 <= i < 32 ==> r.registers@[i] == 0,
    {
        GpRegs { registers: [0u64; 32] }
    }

    /// Writes the given return value to the general-purpose registers: the registers that the
    /// return value uses take its values, the others keep theirs.
    pub fn write_return_value(&mut self, value: &SmcReturn)
        requires
            value.wf(),
        ensures
            forall|i: int|
                0 <= i < value@.len() ==> final(self).registers@[i] == value@[i],
            forall|i: int|
                value@.len() <= i < 32 ==> final(self).registers@[i] == old(self).registers@[i],
    {
        let n = value.len();
        let mut i: usize = 0;
        while i < n
            invariant
                value.wf(),
                n == value@.len(),
                n <= 18,
                i <= n,
                forall|j: int| 0 <= j < i ==> self.registers@[j] == value@[j],
                forall|j: int| i <= j < 32 ==> self.registers@[j] == old(self).registers@[j],
            decreases n - i,
        {
            let v = value.value(i);
            self.registers.set(i, v);
            i = i + 1;
        }
    }
}


/// SCR_EL3.NS: the lower ELs are non-secure.
pub const SCR_NS: u64 = 1 << 0;
/// SCR_EL3.EA: external aborts and SErrors are routed to EL3.
pub const SCR_EA: u64 = 1 << 3;
/// SCR_EL3 bits 5:4, which are RES1.
pub const SCR_RES1: u64 = 0x30;
/// SCR_EL3.HCE: HVC is enabled.
pub const SCR_HCE: u64 = 1 << 8;
/// SCR_EL3.SIF: instruction fetches from non-secure memory are disabled in secure state.
pub const SCR_SIF: u64 = 1 << 9;
/// SCR_EL3.RW: the next lower EL is AArch64.
pub const SCR_RW: u64 = 1 << 10;
/// SCR_EL3.ST: secure EL1 can access the physical timer.
pub const SCR_ST: u64 = 1 << 11;
/// SCR_EL3.NSE: with NS, the lower ELs are in realm state.
pub const SCR_NSE: u64 = 1 << 62;
/// The RES1 bits of SCTLR_EL1.
pub const SCTLR_EL1_RES1: u64 = 0x30D0_0800;

/// Miscellaneous registers used by EL3 firmware to maintain its state across exception entries and
/// exits.
#[derive(Clone, Copy, Debug, Eq, PartialEq, Structural)]
pub struct El3State {
    /// SCR_EL3 of the world.
    pub scr_el3: u64,
    /// ESR_EL3 of the last exception.
    pub esr_el3: u64,
    /// EL3 stack pointer at the world's entry.
    pub runtime_sp: u64,
    /// EL3 link register at the world's entry.
    pub runtime_lr: u64,
    /// SPSR_EL3: the PSTATE of the lower EL.
    pub spsr_el3: u64,
    /// ELR_EL3: where the lower EL continues.
    pub elr_el3: usize,
    /// PMCR_EL0 of the world.
    pub pmcr_el0: u64,
    /// Whether the core runs in EL3.
    pub is_in_el3: u64,
    /// ELR_EL3 saved on a nested exception.
    pub saved_elr_el3: u64,
    /// Whether an external abort is being handled.
    pub nested_ea_flag: u64,
    /// MDCR_EL3 of the world.
    pub mdcr_el3: u64,
}

impl El3State {
    /// The state with every register zero.
    pub open spec fn spec_empty() -> El3State {
        El3State {
            scr_el3: 0,
            esr_el3: 0,
            runtime_sp: 0,
            runtime_lr: 0,
            spsr_el3: 0,
            elr_el3: 0,
            pmcr_el0: 0,
            is_in_el3: 0,
            saved_elr_el3: 0,
            nested_ea_flag: 0,
            mdcr_el3: 0,
        }
    }

    /// Returns the state with every register zero.
    pub fn empty() -> (r: El3State)
        ensures
            r == Self::spec_empty(),
    {
        El3State {
            scr_el3: 0,
            esr_el3: 0,
            runtime_sp: 0,
            runtime_lr: 0,
            spsr_el3: 0,
            elr_el3: 0,
            pmcr_el0: 0,
            is_in_el3: 0,
            saved_elr_el3: 0,
            nested_ea_flag: 0,
            mdcr_el3: 0,
        }
    }
}

/// AArch64 EL1 system register context for preserving the architectural state during world
/// switches. The registers are saved to and restored from it on the hardware.
#[derive(Clone, Copy, Debug, Eq, PartialEq, Structural)]
pub struct El1Sysregs {
    pub spsr_el1: u64,
    pub elr_el1: usize,
    pub sctlr_el1: u64,
    pub tcr_el1: u64,
    pub cpacr_el1: u64,
    pub csselr_el1: u64,
    pub sp_el1: u64,
    pub esr_el1: u64,
    pub ttbr0_el1: u64,
    pub ttbr1_el1: u64,
    pub mair_el1: u64,
    pub amair_el1: u64,
    pub actlr_el1: u64,
    pub tpidr_el1: u64,
    pub tpidr_el0: u64,
    pub tpidrro_el0: u64,
    pub par_el1: u64,
    pub far_el1: u64,
    pub afsr0_el1: u64,
    pub afsr1_el1: u64,
    pub contextidr_el1: u64,
    pub vbar_el1: usize,
    pub mdccint_el1: u64,
    pub mdscr_el1: u64,
}

impl El1Sysregs {
    /// Returns the context with every register zero.
    pub fn empty() -> (r: El1Sysregs)
        ensures
            r.sctlr_el1 == 0,
    {
        El1Sysregs {
            spsr_el1: 0,
            elr_el1: 0,
            sctlr_el1: 0,
            tcr_el1: 0,
            cpacr_el1: 0,
            csselr_el1: 0,
            sp_el1: 0,
            esr_el1: 0,
            ttbr0_el1: 0,
            ttbr1_el1: 0,
            mair_el1: 0,
            amair_el1: 0,
            actlr_el1: 0,
            tpidr_el1: 0,
            tpidr_el0: 0,
            tpidrro_el0: 0,
            par_el1: 0,
            far_el1: 0,
            afsr0_el1: 0,
            afsr1_el1: 0,
            contextidr_el1: 0,
            vbar_el1: 0,
            mdccint_el1: 0,
            mdscr_el1: 0,
        }
    }
}

/// The state of a core at the next lower EL in a given security state.
pub struct CpuContext {
    /// General purpose registers.
    pub gpregs: GpRegs,
    /// EL3 state.
    pub el3_state: El3State,
    /// EL1 system registers.
    pub el1_sysregs: El1Sysregs,
}

impl CpuContext {
    /// The context with every register zero.
    pub fn new() -> (r: CpuContext)
        ensures
            forall|i: int| 0 <= i < 32 ==> r.gpregs.registers@[i] == 0,
            r.el3_state == El3State::spec_empty(),
            r.el1_sysregs.sctlr_el1 == 0,
    {
        CpuContext { gpregs: GpRegs::new(), el3_state: El3State::empty(), el1_sysregs: El1Sysregs::empty() }
    }

    /// Skips an instruction in a lower EL: advances ELR_EL3 by the size of an instruction, so
    /// that after the exception return the lower EL continues with the next instruction instead
    /// of repeating the one that trapped.
    pub fn skip_lower_el_instruction(&mut self)
        requires
            old(self).el3_state.elr_el3 + 4 <= usize::MAX,
        ensures
            final(self).el3_state == (El3State { elr_el3: (old(self).el3_state.elr_el3 + 4) as usize, ..old(self).el3_state }),
            final(self).gpregs == old(self).gpregs,
            final(self).el1_sysregs == old(self).el1_sysregs,
    {
        self.el3_state.elr_el3 = self.el3_state.elr_el3 + 4;
    }
}

/// Information about the entry point for a next stage (e.g. BL32 or BL33).
#[derive(Clone, Copy, Debug, Eq, PartialEq)]
pub struct EntryPointInfo {
    /// The entry point address.
    pub pc: usize,
    /// The `spsr_el3` value to set before `eret`, to set the appropriate PSTATE.
    pub spsr: u64,
    /// Boot arguments to pass in `x0`-`x7`.
    pub args: [u64; 8],
}

/// The SCR_EL3 value that every world starts from: RES1, HVC enabled, external aborts routed to
/// EL3, secure instruction fetches from non-secure memory disabled, AArch64 lower ELs.
pub open spec fn spec_common_scr() -> u64 {
    SCR_RES1 | SCR_HCE | SCR_EA | SCR_SIF | SCR_RW
}

/// The context is initialised as every world starts: at the entry point, with its arguments in
/// x0-x7 and the other registers kept, and SCTLR_EL1 at its RES1 bits.
pub open spec fn initialised_common(old: CpuContext, new: CpuContext, entry_point: EntryPointInfo) -> bool {
    &&& new.el3_state == (El3State { elr_el3: entry_point.pc, spsr_el3: entry_point.spsr, scr_el3: new.el3_state.scr_el3, ..old.el3_state })
    &&& forall|i: int| 0 <= i < 8 ==> new.gpregs.registers@[i] == entry_point.args@[i]
    &&& forall|i: int| 8 <= i < 32 ==> new.gpregs.registers@[i] == old.gpregs.registers@[i]
    &&& new.el1_sysregs == (El1Sysregs { sctlr_el1: SCTLR_EL1_RES1, ..old.el1_sysregs })
}

/// Initialises the parts of the given CPU context that are the same for all worlds. SCR_EL3 is
/// set in full, as all its fields are architecturally UNKNOWN on reset; the fields set here do
/// not change during the firmware's lifetime.
pub fn initialise_common(context: &mut CpuContext, entry_point: &EntryPointInfo)
    ensures
        initialised_common(*old(context), *final(context), *entry_point),
        final(context).el3_state.scr_el3 == spec_common_scr(),
{
    context.el3_state.elr_el3 = entry_point.pc;
    context.el3_state.spsr_el3 = entry_point.spsr;
    let mut i: usize = 0;
    while i < 8
        invariant
            i <= 8,
            forall|j: int| 0 <= j < i ==> context.gpregs.registers@[j] == entry_point.args@[j],
            forall|j: int| i <= j < 32 ==> context.gpregs.registers@[j] == old(context).gpregs.registers@[j],
            context.el3_state == (El3State { elr_el3: entry_point.pc, spsr_el3: entry_point.spsr, ..old(context).el3_state }),
            context.el1_sysregs == old(context).el1_sysregs,
        decreases 8 - i,
    {
        context.gpregs.registers.set(i, entry_point.args[i]);
        i = i + 1;
    }

    context.el3_state.scr_el3 = SCR_RES1 | SCR_HCE | SCR_EA | SCR_SIF | SCR_RW;
    context.el1_sysregs.sctlr_el1 = SCTLR_EL1_RES1;
}

/// Initialises the given CPU context ready for booting NS-EL2 or NS-EL1: non-secure, with FIQs
/// (group 0 and secure interrupts) routed to EL3.
pub fn initialise_nonsecure(context: &mut CpuContext, entry_point: &EntryPointInfo)
    ensures
        initialised_common(*old(context), *final(context), *entry_point),
        final(context).el3_state.scr_el3 == spec_routing_model(spec_common_scr() | SCR_NS, World::NonSecure),
{
    initialise_common(context, entry_point);
    context.el3_state.scr_el3 = context.el3_state.scr_el3 | SCR_NS;
    set_routing_model(&mut context.el3_state.scr_el3, World::NonSecure);
}

/// Initialises the given CPU context ready for booting S-EL2 or S-EL1: secure, with secure EL1
/// access to the timer registers (otherwise only EL3 could access them), and no interrupt routed
/// to EL3.
pub fn initialise_secure(context: &mut CpuContext, entry_point: &EntryPointInfo)
    ensures
        initialised_common(*old(context), *final(context), *entry_point),
        final(context).el3_state.scr_el3 == spec_routing_model(spec_common_scr() | SCR_ST, World::Secure),
{
    initialise_common(context, entry_point);
    context.el3_state.scr_el3 = context.el3_state.scr_el3 | SCR_ST;
    set_routing_model(&mut context.el3_state.scr_el3, World::Secure);
}

/// Initialises the given CPU context ready for booting the realm world: SCR_EL3.NS and NSE.
pub fn initialise_realm(context: &mut CpuContext, entry_point: &EntryPointInfo)
    ensures
        initialised_common(*old(context), *final(context), *entry_point),
        final(context).el3_state.scr_el3 == spec_common_scr() | SCR_NS | SCR_NSE,
{
    initialise_common(context, entry_point);
    context.el3_state.scr_el3 = context.el3_state.scr_el3 | SCR_NS | SCR_NSE;
}

/// The contexts of the worlds of a core.
pub type CpuState = PerWorld<CpuContext>;

/// Initialises all CPU contexts of a core, ready for first boot.
pub fn initialise_contexts(
    cpu_state: &mut CpuState,
    non_secure_entry_point: &EntryPointInfo,
    secure_entry_point: &EntryPointInfo,
    realm_entry_point: &EntryPointInfo,
)
    ensures
        initialised_common(old(cpu_state)@[world_index(World::NonSecure)], final(cpu_state)@[world_index(World::NonSecure)], *non_secure_entry_point),
        final(cpu_state)@[world_index(World::NonSecure)].el3_state.scr_el3 == spec_routing_model(spec_common_scr() | SCR_NS, World::NonSecure),
        initialised_common(old(cpu_state)@[world_index(World::Secure)], final(cpu_state)@[world_index(World::Secure)], *secure_entry_point),
        final(cpu_state)@[world_index(World::Secure)].el3_state.scr_el3 == spec_routing_model(spec_common_scr() | SCR_ST, World::Secure),
        initialised_common(old(cpu_state)@[world_index(World::Realm)], final(cpu_state)@[world_index(World::Realm)], *realm_entry_point),
        final(cpu_state)@[world_index(World::Realm)].el3_state.scr_el3 == spec_common_scr() | SCR_NS | SCR_NSE,
{
    initialise_nonsecure(&mut cpu_state.0[1], non_secure_entry_point);
    initialise_secure(&mut cpu_state.0[0], secure_entry_point);
    initialise_realm(&mut cpu_state.0[2], realm_entry_point);
}

/// The entry points of a core that CPU_ON turned on: the normal world starts at the PSCI entry
/// point with its context ID in x0 and x1-x7 zero, the secure world at the SPMC's secondary entry
/// point with x0-x7 zero; both keep the SPSR of the given boot entry points.
pub fn cpu_on_entry_points(
    psci_entrypoint: EntryPoint,
    non_secure: &EntryPointInfo,
    secure: &EntryPointInfo,
    secondary_ep: usize,
) -> (r: (EntryPointInfo, EntryPointInfo))
    ensures
        r.0.pc == psci_entrypoint.spec_address() as usize,
        r.0.spsr == non_secure.spsr,
        r.0.args@ == seq![psci_entrypoint.spec_context_id(), 0, 0, 0, 0, 0, 0, 0],
        r.1.pc == secondary_ep,
        r.1.spsr == secure.spsr,
        r.1.args@ == seq![0u64, 0, 0, 0, 0, 0, 0, 0],
{
    let ns = EntryPointInfo {
        pc: psci_entrypoint.entry_point_address() as usize,
        spsr: non_secure.spsr,
        args: [psci_entrypoint.context_id(), 0, 0, 0, 0, 0, 0, 0],
    };
    let s = EntryPointInfo { pc: secondary_ep, spsr: secure.spsr, args: [0u64; 8] };
    assert(ns.args@ =~= seq![psci_entrypoint.spec_context_id(), 0, 0, 0, 0, 0, 0, 0]);
    assert(s.args@ =~= seq![0u64, 0, 0, 0, 0, 0, 0, 0]);
    (ns, s)
}

/// Updates the CPU context of each world to resume after a power down suspend: the normal world
/// continues at the PSCI entry point with its context ID in x0 and x1-x7 zero; the secure world
/// takes the given registers in x0-x17.
pub fn update_contexts_suspend(cpu_state: &mut CpuState, psci_entrypoint: EntryPoint, secure_args: &SmcReturn)
    requires
        secure_args.wf(),
        secure_args@.len() == 18,
    ensures
        ({
            let ns = final(cpu_state)@[world_index(World::NonSecure)];
            let old_ns = old(cpu_state)@[world_index(World::NonSecure)];
            &&& ns.el3_state == (El3State { elr_el3: psci_entrypoint.spec_address() as usize, ..old_ns.el3_state })
            &&& ns.gpregs.registers@[0] == psci_entrypoint.spec_context_id()
            &&& forall|i: int| 1 <= i < 8 ==> ns.gpregs.registers@[i] == 0
            &&& forall|i: int| 8 <= i < 32 ==> ns.gpregs.registers@[i] == old_ns.gpregs.registers@[i]
            &&& ns.el1_sysregs == old_ns.el1_sysregs
        }),
        ({
            let s = final(cpu_state)@[world_index(World::Secure)];
            let old_s = old(cpu_state)@[world_index(World::Secure)];
            &&& forall|i: int| 0 <= i < 18 ==> s.gpregs.registers@[i] == secure_args@[i]
            &&& forall|i: int| 18 <= i < 32 ==> s.gpregs.registers@[i] == old_s.gpregs.registers@[i]
            &&& s.el3_state == old_s.el3_state
            &&& s.el1_sysregs == old_s.el1_sysregs
        }),
        final(cpu_state)@[world_index(World::Realm)] == old(cpu_state)@[world_index(World::Realm)],
{
    let ns = &mut cpu_state.0[1];
    ns.el3_state.elr_el3 = psci_entrypoint.entry_point_address() as usize;
    ns.gpregs.registers.set(0, psci_entrypoint.context_id());
    let mut i: usize = 1;
    while i < 8
        invariant
            1 <= i <= 8,
            ns.gpregs.registers@[0] == psci_entrypoint.spec_context_id(),
            forall|j: int| 1 <= j < i ==> ns.gpregs.registers@[j] == 0,
            forall|j: int| i <= j < 32 ==> ns.gpregs.registers@[j] == old(cpu_state)@[1].gpregs.registers@[j],
            ns.el3_state == (El3State { elr_el3: psci_entrypoint.spec_address() as usize, ..old(cpu_state)@[1].el3_state }),
            ns.el1_sysregs == old(cpu_state)@[1].el1_sysregs,
        decreases 8 - i,
    {
        ns.gpregs.registers.set(i, 0);
        i = i + 1;
    }

    cpu_state.0[0].gpregs.write_return_value(secure_args);

    // Suspend handling for the realm world is not implemented.
}

} // verus!
