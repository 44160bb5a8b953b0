//! SMC dispatch: the services that handle SMC calls, and the routing of a call to the service that
//! owns its function identifier.

pub mod arch;
pub mod errata_management;
pub mod ffa;
pub mod psci;
pub mod rmmd;
pub mod trng;

use crate::context::World;
use crate::gicv3::InterruptType;
use crate::smccc::{
    spec_call_type, spec_oen, spec_valid, FunctionId, SmcReturn, SmcccCallType, NOT_SUPPORTED,
    i32_reg,
};
use vstd::prelude::*;

verus! {

/// Whether a function identifier is a fast call of the given owning entity.
pub open spec fn owns_oen(id: u32, oen: u8) -> bool {
    &&& spec_oen(id) == oen
    &&& (spec_call_type(id) == SmcccCallType::Fast32 || spec_call_type(id) == SmcccCallType::Fast64)
}

/// Whether a function identifier is a fast call of the given owning entity whose function number
/// lies in `min..=max`.
pub open spec fn owns_range(id: u32, oen: u8, min: u16, max: u16) -> bool {
    &&& owns_oen(id, oen)
    &&& min <= id % 0x1_0000 <= max
}

/// Returns whether `function` is a fast call of the owning entity `oen`.
pub fn function_owned_by(function: FunctionId, oen: u8) -> (r: bool)
    ensures
        r == owns_oen(function.0, oen),
{
    function.oen().0 == oen && match function.call_type() {
        SmcccCallType::Fast32 | SmcccCallType::Fast64 => true,
        SmcccCallType::Yielding => false,
    }
}

/// Returns whether `function` is a fast call of the owning entity `oen` whose function number lies
/// in `min..=max`.
pub fn function_in_range(function: FunctionId, oen: u8, min: u16, max: u16) -> (r: bool)
    ensures
        r == owns_range(function.0, oen, min, max),
{
    let number = function.number();
    function_owned_by(function, oen) && min <= number && number <= max
}

/// A service which handles some range of SMC calls.
///
/// According to SMCCC v1.3+ the implementation must disregard the SVE hint bit in the function ID
/// and consider it to be 0 for the purpose of function identification.
pub trait Service {
    /// Returns whether this service is intended to handle the given function ID.
    fn owns(&self, function: FunctionId) -> bool;

    /// Handles the given SMC call from Normal World.
    fn handle_non_secure_smc(&self, regs: &[u64; 18]) -> (SmcReturn, World) {
        (SmcReturn::from_i32(NOT_SUPPORTED), World::NonSecure)
    }

    /// Handles the given SMC call from Secure World.
    fn handle_secure_smc(&self, regs: &[u64; 18]) -> (SmcReturn, World) {
        (SmcReturn::from_i32(NOT_SUPPORTED), World::Secure)
    }

    /// Handles the given SMC call from Realm World.
    fn handle_realm_smc(&self, regs: &[u64; 18]) -> (SmcReturn, World) {
        (SmcReturn::from_i32(NOT_SUPPORTED), World::Realm)
    }
}

/// Passes the call to the handler of `service` for the world it comes from.
fn call_service<S: Service>(service: &S, regs: &[u64; 18], world: World) -> (SmcReturn, World) {
    match world {
        World::NonSecure => service.handle_non_secure_smc(regs),
        World::Secure => service.handle_secure_smc(regs),
        World::Realm => service.handle_realm_smc(regs),
    }
}

/// The owner of a function identifier among the services of [`Services`].
#[derive(Copy, Clone, Debug, Eq, PartialEq, Structural)]
pub enum ServiceKind {
    /// Arm architecture calls.
    Arch,
    /// PSCI.
    Psci,
    /// The platform-specific service.
    Platform,
    /// The SPM dispatcher.
    Spmd,
    /// The RMM dispatcher.
    Rmmd,
}

/// The first service, in the order Arm architecture, PSCI, platform, SPMD, RMMD, that owns a
/// function, given whether each owns it.
pub open spec fn first_owner(arch: bool, psci: bool, platform: bool, spmd: bool, rmmd: bool) -> Option<ServiceKind> {
    if arch {
        Some(ServiceKind::Arch)
    } else if psci {
        Some(ServiceKind::Psci)
    } else if platform {
        Some(ServiceKind::Platform)
    } else if spmd {
        Some(ServiceKind::Spmd)
    } else if rmmd {
        Some(ServiceKind::Rmmd)
    } else {
        None
    }
}

/// Returns the first service, in the order Arm architecture, PSCI, platform, SPMD, RMMD, that
/// owns a function, given whether each owns it.
pub fn first_owner_of(arch: bool, psci: bool, platform: bool, spmd: bool, rmmd: bool) -> (r: Option<ServiceKind>)
    ensures
        r == first_owner(arch, psci, platform, spmd, rmmd),
{
    if arch {
        Some(ServiceKind::Arch)
    } else if psci {
        Some(ServiceKind::Psci)
    } else if platform {
        Some(ServiceKind::Platform)
    } else if spmd {
        Some(ServiceKind::Spmd)
    } else if rmmd {
        Some(ServiceKind::Rmmd)
    } else {
        None
    }
}

/// Contains an instance of all of the implemented services.
pub struct Services<Ps: Service, Pl: Service, Sp: Service, Rm: Service> {
    /// Arm architecture calls.
    pub arch: arch::Arch,
    /// Power State Coordination Interface.
    pub psci: Ps,
    /// Platform-specific calls.
    pub platform: Pl,
    /// Secure Partition Manager Dispatcher.
    pub spmd: Sp,
    /// Realm Management Monitor Dispatcher.
    pub rmmd: Rm,
}

impl<Ps: Service, Pl: Service, Sp: Service, Rm: Service> Services<Ps, Pl, Sp, Rm> {
    /// Collects the given services; the Arm architecture service is always present.
    pub fn new(psci: Ps, platform: Pl, spmd: Sp, rmmd: Rm) -> (r: Self)
        ensures
            r.psci == psci,
            r.platform == platform,
            r.spmd == spmd,
            r.rmmd == rmmd,
    {
        Services { arch: arch::Arch::new(), psci, platform, spmd, rmmd }
    }

    /// Returns the service that handles `function`: the first, in the order Arm architecture,
    /// PSCI, platform, SPMD, RMMD, that owns it. `None` if none owns it. Whether the other
    /// services own it is their own `owns` answer, which the result follows whatever it is.
    pub fn route(&self, function: FunctionId) -> (r: Option<ServiceKind>)
        ensures
            exists|psci: bool, platform: bool, spmd: bool, rmmd: bool|
                r == #[trigger] first_owner(arch::arch_owns(function.0), psci, platform, spmd, rmmd),
    {
        let arch_owns = self.arch.owns(function);
        if arch_owns {
            let r = first_owner_of(true, false, false, false, false);
            assert(r == first_owner(arch::arch_owns(function.0), false, false, false, false));
            return r;
        }
        let psci_owns = self.psci.owns(function);
        let platform_owns = !psci_owns && self.platform.owns(function);
        let spmd_owns = !psci_owns && !platform_owns && self.spmd.owns(function);
        let rmmd_owns = !psci_owns && !platform_owns && !spmd_owns && self.rmmd.owns(function);
        let r = first_owner_of(false, psci_owns, platform_owns, spmd_owns, rmmd_owns);
        assert(r == first_owner(arch::arch_owns(function.0), psci_owns, platform_owns, spmd_owns, rmmd_owns));
        r
    }

    /// Handles an SMC call from `world`, and returns the registers to return and the world to
    /// run next. Malformed function identifiers are answered with `NOT_SUPPORTED` in the calling
    /// world; otherwise the call goes to the service that [`Self::route`] picks, as
    /// [`Self::dispatch`] says.
    pub fn handle_smc(&self, regs: &[u64; 18], world: World) -> (r: (SmcReturn, World))
        ensures
            !spec_valid(regs@[0] as u32) ==> r.0@ == seq![i32_reg(NOT_SUPPORTED)] && r.1 == world,
            spec_valid(regs@[0] as u32) ==> exists|psci: bool, platform: bool, spmd: bool, rmmd: bool|
                Self::dispatched(
                    #[trigger] first_owner(arch::arch_owns(regs@[0] as u32), psci, platform, spmd, rmmd),
                    regs@,
                    world,
                    r,
                ),
    {
        let function = FunctionId(regs[0] as u32);

        if !function.valid() {
            return (SmcReturn::from_i32(NOT_SUPPORTED), world);
        }
        let owner = self.route(function);
        self.dispatch(owner, regs, world)
    }

    /// What [`Self::dispatch`] states of its result for the owning service: `NOT_SUPPORTED` in
    /// the calling world when no service owns the call, and the Arm architecture result in the
    /// calling world for an Arm architecture call. The other services answer with their own
    /// handler for the calling world.
    pub open spec fn dispatched(owner: Option<ServiceKind>, regs: Seq<u64>, world: World, r: (SmcReturn, World)) -> bool {
        &&& owner is None ==> r.0@ == seq![i32_reg(NOT_SUPPORTED)] && r.1 == world
        &&& owner == Some(ServiceKind::Arch) ==> r.0@ == arch::arch_result(regs) && r.1 == world
    }

    /// Passes an SMC call from `world` to the service that owns it, the handler for the calling
    /// world, and returns its answer; answers `NOT_SUPPORTED` in the calling world when no
    /// service owns it.
    pub fn dispatch(&self, owner: Option<ServiceKind>, regs: &[u64; 18], world: World) -> (r: (SmcReturn, World))
        ensures
            Self::dispatched(owner, regs@, world, r),
    {
        match owner {
            Some(ServiceKind::Arch) => {
                let out = arch::Arch::handle_common_smc(regs);
                (out, world)
            },
            Some(ServiceKind::Psci) => call_service(&self.psci, regs, world),
            Some(ServiceKind::Platform) => call_service(&self.platform, regs, world),
            Some(ServiceKind::Spmd) => call_service(&self.spmd, regs, world),
            Some(ServiceKind::Rmmd) => call_service(&self.rmmd, regs, world),
            None => (SmcReturn::from_i32(NOT_SUPPORTED), world),
        }
    }
}


/// What EL3 does with an interrupt signalled to it while a world ran.
#[derive(Copy, Clone, Debug, Eq, PartialEq, Structural)]
pub enum InterruptAction {
    /// Forward the secure interrupt to the SPMC, which runs next.
    ForwardToSpmc,
    /// Handle the group 0 interrupt in EL3, then resume the world with its registers unchanged.
    HandleGroup0,
    /// The interrupt was spurious: resume the world with its registers unchanged.
    Resume,
}

/// Whether EL3 handles an interrupt of the type in the world: a secure interrupt preempting the
/// normal world, a group 0 interrupt in the normal world, and a spurious one anywhere. Group 0
/// interrupts in the secure world should reach EL3 through the SPMC instead.
pub open spec fn interrupt_supported(interrupt_type: InterruptType, world: World) -> bool {
    ||| (interrupt_type == InterruptType::Secure && world == World::NonSecure)
    ||| (interrupt_type == InterruptType::El3 && world == World::NonSecure)
    ||| interrupt_type == InterruptType::Invalid
}

/// Returns what to do with an interrupt of the type signalled in the world.
pub fn interrupt_action(interrupt_type: InterruptType, world: World) -> (r: InterruptAction)
    requires
        interrupt_supported(interrupt_type, world),
    ensures
        interrupt_type == InterruptType::Secure ==> r == InterruptAction::ForwardToSpmc,
        interrupt_type == InterruptType::El3 ==> r == InterruptAction::HandleGroup0,
        interrupt_type == InterruptType::Invalid ==> r == InterruptAction::Resume,
{
    match interrupt_type {
        InterruptType::Secure => InterruptAction::ForwardToSpmc,
        InterruptType::El3 => InterruptAction::HandleGroup0,
        _ => InterruptAction::Resume,
    }
}

/// What EL3 does with a trapped system register access.
#[derive(Copy, Clone, Debug, Eq, PartialEq, Structural)]
pub enum SysregTrapAction {
    /// Inject an undefined instruction exception into the lower EL.
    InjectUndef,
    /// The access was emulated: continue with the next instruction.
    StepOver,
}

/// The ISS bits of ESR_EL3 that identify the trapped system register and the direction.
pub const ISS_SYSREG_OPCODE_MASK: u64 = 0x003F_FC1E;

/// Returns what to do with a system register access that trapped with the given ESR_EL3. No
/// system register is emulated: every trapped access gets an undefined instruction exception.
pub fn sysreg_trap_action(esr: u64) -> (r: SysregTrapAction)
    ensures
        r == SysregTrapAction::InjectUndef,
{
    match esr & ISS_SYSREG_OPCODE_MASK {
        _ => SysregTrapAction::InjectUndef,
    }
}

/// Where the run loop is: booting a world for the first time, or running.
#[derive(Copy, Clone, Debug, Eq, PartialEq, Structural)]
pub enum RunPhase {
    /// The secure world boots.
    BootSecure,
    /// The realm world boots.
    BootRealm,
    /// The worlds run; the current one is given.
    Runtime(World),
}

/// The world that the run loop enters next: its system registers are restored first, after those
/// of `switch_from` are saved (none for the very first world), and it is entered with the
/// registers that the previous world handed over, or none on its first entry.
#[derive(Copy, Clone, Debug, Eq, PartialEq, Structural)]
pub struct WorldEntry {
    /// The world to enter.
    pub world: World,
    /// The world whose system registers are saved first.
    pub switch_from: Option<World>,
    /// Whether the world is entered for the first time, with its registers as initialised.
    pub first_entry: bool,
}

/// The main runtime loop's decisions: all worlds are entered for the first time in order, secure,
/// realm, then normal world; after that each world runs until it hands over to another, which is
/// entered with the registers it handed over.
pub struct RunLoop {
    /// The phase.
    pub phase: RunPhase,
}

/// Returns whether a world that handled an exit with the answer meant for `next_world` stops
/// running: it does when the answer is for another world, which is entered next; otherwise the
/// world is entered again with the answer.
pub fn hands_over(world: World, next_world: World) -> (r: bool)
    ensures
        r == (next_world != world),
{
    next_world != world
}

/// Whether a world that the run loop entered may exit to `next_world`: a booting world hands
/// over to the normal world, and at runtime a world hands over to another.
pub open spec fn valid_exit(phase: RunPhase, next_world: World) -> bool {
    match phase {
        RunPhase::BootSecure | RunPhase::BootRealm => next_world == World::NonSecure,
        RunPhase::Runtime(current) => next_world != current,
    }
}

impl RunLoop {
    /// Starts the run loop with the secure world, whose system registers are only restored.
    pub fn start() -> (r: (RunLoop, WorldEntry))
        ensures
            r.0.phase == RunPhase::BootSecure,
            r.1 == (WorldEntry { world: World::Secure, switch_from: None, first_entry: true }),
    {
        (RunLoop { phase: RunPhase::BootSecure }, WorldEntry { world: World::Secure, switch_from: None, first_entry: true })
    }

    /// Returns whether the world entered last may exit to `next_world`, as [`valid_exit`] says.
    pub fn exit_allowed(&self, next_world: World) -> (r: bool)
        ensures
            r == valid_exit(self.phase, next_world),
    {
        match self.phase {
            RunPhase::BootSecure | RunPhase::BootRealm => next_world == World::NonSecure,
            RunPhase::Runtime(current) => next_world != current,
        }
    }

    /// The world entered last has exited and handed over to `next_world`: returns the world to
    /// enter next.
    pub fn world_exited(&mut self, next_world: World) -> (r: WorldEntry)
        requires
            valid_exit(old(self).phase, next_world),
        ensures
            old(self).phase == RunPhase::BootSecure ==> {
                &&& final(self).phase == RunPhase::BootRealm
                &&& r == (WorldEntry { world: World::Realm, switch_from: Some(World::Secure), first_entry: true })
            },
            old(self).phase == RunPhase::BootRealm ==> {
                &&& final(self).phase == RunPhase::Runtime(World::NonSecure)
                &&& r == (WorldEntry { world: World::NonSecure, switch_from: Some(World::Realm), first_entry: true })
            },
            old(self).phase matches RunPhase::Runtime(current) ==> {
                &&& final(self).phase == RunPhase::Runtime(next_world)
                &&& r == (WorldEntry { world: next_world, switch_from: Some(current), first_entry: false })
            },
    {
        match self.phase {
            RunPhase::BootSecure => {
                self.phase = RunPhase::BootRealm;
                WorldEntry { world: World::Realm, switch_from: Some(World::Secure), first_entry: true }
            },
            RunPhase::BootRealm => {
                self.phase = RunPhase::Runtime(World::NonSecure);
                WorldEntry { world: World::NonSecure, switch_from: Some(World::Realm), first_entry: true }
            },
            RunPhase::Runtime(current) => {
                self.phase = RunPhase::Runtime(next_world);
                WorldEntry { world: next_world, switch_from: Some(current), first_entry: false }
            },
        }
    }
}

} // verus!
