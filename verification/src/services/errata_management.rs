//! Arm Errata Management Firmware Interface (Arm DEN 0100).

use crate::context::World;
use crate::services::{function_in_range, owns_range, Service};
use crate::smccc::{i32_reg, FunctionId, SmcReturn, NOT_SUPPORTED, OEN_STANDARD_SECURE, SVE_HINT_BIT};
use vstd::prelude::*;

verus! {

/// Lowest function number of the interface.
pub const FUNCTION_NUMBER_MIN: u16 = 0x00F0;
/// Highest function number of the interface.
pub const FUNCTION_NUMBER_MAX: u16 = 0x00FF;

/// EM_VERSION function identifier.
pub const EM_VERSION: u32 = 0x8400_00F0;
/// EM_FEATURES function identifier.
pub const EM_FEATURES: u32 = 0x8400_00F1;
/// EM_CPU_ERRATUM_FEATURES function identifier.
pub const EM_CPU_ERRATUM_FEATURES: u32 = 0x8400_00F2;

/// The interface version implemented: 1.0.
pub const VERSION_1_0: i32 = 0x0001_0000;

/// Whether S-EL2 is present: without it, calls from the secure world come from S-EL1.
pub const SEL2: bool = false;

/// A status value returned by errata management functions.
#[derive(Clone, Copy, Debug, Eq, PartialEq, Structural)]
pub enum Status {
    /// The erratum is mitigated at a higher exception level.
    HigherElMitigation,
    /// The CPU is not affected.
    NotAffected,
    /// The CPU is affected.
    Affected,
    /// Success.
    Success,
    /// The function is not supported.
    NotSupported,
    /// A parameter is invalid.
    InvalidParameters,
    /// The erratum is not known.
    UnknownErratum,
}

/// The code of a status.
pub open spec fn status_code(s: Status) -> i32 {
    match s {
        Status::HigherElMitigation => 3,
        Status::NotAffected => 2,
        Status::Affected => 1,
        Status::Success => 0,
        Status::NotSupported => -1i32,
        Status::InvalidParameters => -2i32,
        Status::UnknownErratum => -3i32,
    }
}

impl Status {
    /// Returns the code of the status.
    pub fn code(self) -> (r: i32)
        ensures
            r == status_code(self),
    {
        match self {
            Status::HigherElMitigation => 3,
            Status::NotAffected => 2,
            Status::Affected => 1,
            Status::Success => 0,
            Status::NotSupported => -1,
            Status::InvalidParameters => -2,
            Status::UnknownErratum => -3,
        }
    }
}

/// The answer of EM_FEATURES for the queried function.
pub open spec fn features_result(em_func_id: u32) -> i32 {
    if em_func_id == EM_VERSION || em_func_id == EM_FEATURES || em_func_id == EM_CPU_ERRATUM_FEATURES {
        status_code(Status::Success)
    } else {
        status_code(Status::NotSupported)
    }
}

/// The answer of EM_CPU_ERRATUM_FEATURES: the reserved registers x3-x7 must be zero, the secure
/// world without S-EL2 must not set the forward flag, and no erratum is known.
pub open spec fn cpu_erratum_features_result(regs: Seq<u64>, world: World) -> Status {
    if regs[3] != 0 || regs[4] != 0 || regs[5] != 0 || regs[6] != 0 || regs[7] != 0 {
        Status::InvalidParameters
    } else if world == World::Secure && !SEL2 && regs[2] != 0 {
        Status::InvalidParameters
    } else {
        Status::UnknownErratum
    }
}

/// The registers returned for an errata management call from `world`.
pub open spec fn em_result(regs: Seq<u64>, world: World) -> Seq<u64> {
    let function = (regs[0] as u32) & !SVE_HINT_BIT;
    if function == EM_VERSION {
        seq![i32_reg(VERSION_1_0)]
    } else if function == EM_FEATURES {
        seq![i32_reg(features_result(regs[1] as u32))]
    } else if function == EM_CPU_ERRATUM_FEATURES {
        seq![i32_reg(status_code(cpu_erratum_features_result(regs, world)))]
    } else {
        seq![i32_reg(NOT_SUPPORTED)]
    }
}

/// Arm Errata Management Firmware Interface.
pub struct ErrataManagement;

impl ErrataManagement {
    /// Creates the service.
    pub fn new() -> (r: Self) {
        ErrataManagement
    }

    /// Handles an errata management call from `world`.
    pub fn handle_smc(regs: &[u64; 18], world: World) -> (r: SmcReturn)
        ensures
            r.wf(),
            r@ == em_result(regs@, world),
    {
        let mut function = FunctionId(regs[0] as u32);
        function.clear_sve_hint();

        if function.0 == EM_VERSION {
            SmcReturn::from_i32(version())
        } else if function.0 == EM_FEATURES {
            SmcReturn::from_i32(features(regs[1] as u32))
        } else if function.0 == EM_CPU_ERRATUM_FEATURES {
            SmcReturn::from_i32(cpu_erratum_features(regs, world).code())
        } else {
            SmcReturn::from_i32(NOT_SUPPORTED)
        }
    }
}

impl Service for ErrataManagement {
    fn owns(&self, function: FunctionId) -> (r: bool)
        ensures
            r == owns_range(function.0, OEN_STANDARD_SECURE, FUNCTION_NUMBER_MIN, FUNCTION_NUMBER_MAX),
    {
        function_in_range(function, OEN_STANDARD_SECURE, FUNCTION_NUMBER_MIN, FUNCTION_NUMBER_MAX)
    }

    fn handle_non_secure_smc(&self, regs: &[u64; 18]) -> (r: (SmcReturn, World))
        ensures
            r.0@ == em_result(regs@, World::NonSecure),
            r.1 == World::NonSecure,
    {
        (Self::handle_smc(regs, World::NonSecure), World::NonSecure)
    }

    fn handle_secure_smc(&self, regs: &[u64; 18]) -> (r: (SmcReturn, World))
        ensures
            r.0@ == em_result(regs@, World::Secure),
            r.1 == World::Secure,
    {
        (Self::handle_smc(regs, World::Secure), World::Secure)
    }

    fn handle_realm_smc(&self, regs: &[u64; 18]) -> (r: (SmcReturn, World))
        ensures
            r.0@ == em_result(regs@, World::Realm),
            r.1 == World::Realm,
    {
        (Self::handle_smc(regs, World::Realm), World::Realm)
    }
}

/// Returns the implemented interface version.
pub fn version() -> (r: i32)
    ensures
        r == VERSION_1_0,
{
    VERSION_1_0
}

/// Returns whether the given errata management function is implemented.
pub fn features(em_func_id: u32) -> (r: i32)
    ensures
        r == features_result(em_func_id),
{
    if em_func_id == EM_VERSION || em_func_id == EM_FEATURES || em_func_id == EM_CPU_ERRATUM_FEATURES {
        Status::Success.code()
    } else {
        Status::NotSupported.code()
    }
}

/// Answers EM_CPU_ERRATUM_FEATURES for the erratum in `x1`, called from `world` with the forward
/// flag in `x2`.
pub fn cpu_erratum_features(regs: &[u64; 18], world: World) -> (r: Status)
    ensures
        r == cpu_erratum_features_result(regs@, world),
{
    let forward_flag = regs[2] != 0;

    if regs[3] != 0 || regs[4] != 0 || regs[5] != 0 || regs[6] != 0 || regs[7] != 0 {
        return Status::InvalidParameters;
    }

    if world == World::Secure && !SEL2 && forward_flag {
        return Status::InvalidParameters;
    }

    Status::UnknownErratum
}

} // verus!
