//! Arm architecture SMCs (SMCCC §7): version, features, SoC identification and the CPU
//! vulnerability workarounds.

use crate::context::World;
use crate::platform::{Platform, PlatformImpl};
use crate::services::{function_owned_by, owns_oen, Service};
use crate::smccc::{
    i32_reg, spec_call_type, FunctionId, SmcReturn, SmcccCallType, INVALID_PARAMETER,
    NOT_SUPPORTED, OEN_ARM_ARCHITECTURE, SUCCESS, SVE_HINT_BIT,
};
use vstd::prelude::*;

verus! {

/// SMCCC_VERSION function identifier.
pub const SMCCC_VERSION: u32 = 0x8000_0000;
/// SMCCC_ARCH_FEATURES function identifier.
pub const SMCCC_ARCH_FEATURES: u32 = 0x8000_0001;
/// SMCCC_ARCH_SOC_ID function identifier, SMC32.
pub const SMCCC_ARCH_SOC_ID_32: u32 = 0x8000_0002;
/// SMCCC_ARCH_SOC_ID function identifier, SMC64.
pub const SMCCC_ARCH_SOC_ID_64: u32 = 0xc000_0002;
/// SMCCC_ARCH_SOC_ID parameter: SoC version.
pub const SMCCC_ARCH_SOC_ID_VERSION: u32 = 0x0;
/// SMCCC_ARCH_SOC_ID parameter: SoC revision.
pub const SMCCC_ARCH_SOC_ID_REVISION: u32 = 0x1;
/// SMCCC_ARCH_SOC_ID parameter: SoC name.
pub const SMCCC_ARCH_SOC_ID_NAME: u32 = 0x2;
/// SMCCC_ARCH_WORKAROUND_1 function identifier (CVE-2017-5715).
pub const SMCCC_ARCH_WORKAROUND_1: u32 = 0x8000_8000;
/// SMCCC_ARCH_WORKAROUND_2 function identifier (CVE-2018-3639).
pub const SMCCC_ARCH_WORKAROUND_2: u32 = 0x8000_7FFF;
/// SMCCC_ARCH_WORKAROUND_3 function identifier (CVE-2017-5715 and CVE-2022-23960).
pub const SMCCC_ARCH_WORKAROUND_3: u32 = 0x8000_3FFF;
/// SMCCC_ARCH_WORKAROUND_4 function identifier.
pub const SMCCC_ARCH_WORKAROUND_4: u32 = 0x8000_0004;

/// The SMCCC version implemented: 1.5.
pub const SMCCC_VERSION_1_5: i32 = 0x0001_0005;

/// The SoC name returned by SMCCC_ARCH_SOC_ID, as four little-endian words of ASCII text.
pub const SOC_NAME_WORD_0: u64 = 0x544f_444f_3a20_496d;
/// Second word of the SoC name.
pub const SOC_NAME_WORD_1: u64 = 0x706c_656d_656e_7420;
/// Third word of the SoC name.
pub const SOC_NAME_WORD_2: u64 = 0x7468_6973_2070_726f;
/// Fourth word of the SoC name (NUL terminated).
pub const SOC_NAME_WORD_3: u64 = 0x7065_726c_792e_0000;

/// Whether a workaround is needed on this platform.
#[derive(Copy, Clone, Debug, Eq, PartialEq, Structural)]
pub enum WorkaroundSupport {
    /// The workaround is required and implemented.
    Required,
    /// The workaround is safe to call but not required.
    SafeButNotRequired,
}

/// The status code that reports a workaround's support.
pub open spec fn workaround_code(w: WorkaroundSupport) -> i32 {
    match w {
        WorkaroundSupport::Required => 0,
        WorkaroundSupport::SafeButNotRequired => 1,
    }
}

impl WorkaroundSupport {
    /// Returns the status code that reports this support level.
    pub fn code(self) -> (r: i32)
        ensures
            r == workaround_code(self),
    {
        match self {
            WorkaroundSupport::Required => 0,
            WorkaroundSupport::SafeButNotRequired => 1,
        }
    }
}

/// Whether the Arm architecture service owns the function.
pub open spec fn arch_owns(id: u32) -> bool {
    owns_oen(id, OEN_ARM_ARCHITECTURE)
}

/// The result of SMCCC_ARCH_FEATURES for the queried function.
pub open spec fn arch_features_result(arch_func_id: u32) -> i32 {
    if arch_func_id == SMCCC_VERSION || arch_func_id == SMCCC_ARCH_FEATURES
        || arch_func_id == SMCCC_ARCH_SOC_ID_32 || arch_func_id == SMCCC_ARCH_SOC_ID_64 {
        SUCCESS
    } else if arch_func_id == SMCCC_ARCH_WORKAROUND_1 {
        workaround_code(PlatformImpl::spec_arch_workaround_1_supported())
    } else if arch_func_id == SMCCC_ARCH_WORKAROUND_2 {
        workaround_code(PlatformImpl::spec_arch_workaround_2_supported())
    } else if arch_func_id == SMCCC_ARCH_WORKAROUND_3 {
        workaround_code(PlatformImpl::spec_arch_workaround_3_supported())
    } else if arch_func_id == SMCCC_ARCH_WORKAROUND_4 {
        workaround_code(PlatformImpl::spec_arch_workaround_4_supported())
    } else {
        NOT_SUPPORTED
    }
}

/// SMCCC_ARCH_FEATURES answers each of the workaround calls that this firmware implements
/// (SMCCC_ARCH_WORKAROUND_1 to _4) with the platform's support for that workaround: 0 where the
/// workaround is required, 1 where it is safe but not required, never NOT_SUPPORTED. The answer
/// comes back in x0 of an SMCCC_ARCH_FEATURES call (0x8000_0001) that queries it in w1.
pub proof fn lemma_workaround_features(regs: Seq<u64>)
    requires
        regs.len() >= 2,
        (regs[0] as u32) & !0x0001_0000u32 == 0x8000_0001,
    ensures
        regs[1] as u32 == 0x8000_8000 ==> arch_result(regs) == seq![i32_reg(
            workaround_code(PlatformImpl::spec_arch_workaround_1_supported()),
        )],
        regs[1] as u32 == 0x8000_7FFF ==> arch_result(regs) == seq![i32_reg(
            workaround_code(PlatformImpl::spec_arch_workaround_2_supported()),
        )],
        regs[1] as u32 == 0x8000_3FFF ==> arch_result(regs) == seq![i32_reg(
            workaround_code(PlatformImpl::spec_arch_workaround_3_supported()),
        )],
        regs[1] as u32 == 0x8000_0004 ==> arch_result(regs) == seq![i32_reg(
            workaround_code(PlatformImpl::spec_arch_workaround_4_supported()),
        )],
        regs[1] as u32 == 0x8000_8000 || regs[1] as u32 == 0x8000_7FFF || regs[1] as u32 == 0x8000_3FFF
            || regs[1] as u32 == 0x8000_0004 ==> 0 <= arch_features_result(regs[1] as u32) <= 1,
{
}

/// The registers returned by SMCCC_ARCH_SOC_ID for the given type and call convention.
pub open spec fn arch_soc_id_result(soc_id_type: u32, call_type: SmcccCallType) -> Seq<u64> {
    if soc_id_type == SMCCC_ARCH_SOC_ID_VERSION || soc_id_type == SMCCC_ARCH_SOC_ID_REVISION {
        seq![i32_reg(0)]
    } else if soc_id_type == SMCCC_ARCH_SOC_ID_NAME && call_type == SmcccCallType::Fast64 {
        seq![0u64, SOC_NAME_WORD_0, SOC_NAME_WORD_1, SOC_NAME_WORD_2, SOC_NAME_WORD_3]
    } else {
        seq![i32_reg(INVALID_PARAMETER)]
    }
}

/// The registers returned for an Arm architecture call with the given argument registers.
pub open spec fn arch_result(regs: Seq<u64>) -> Seq<u64> {
    let function = (regs[0] as u32) & !SVE_HINT_BIT;
    if function == SMCCC_VERSION {
        seq![i32_reg(SMCCC_VERSION_1_5)]
    } else if function == SMCCC_ARCH_FEATURES {
        seq![i32_reg(arch_features_result(regs[1] as u32))]
    } else if function == SMCCC_ARCH_SOC_ID_32 || function == SMCCC_ARCH_SOC_ID_64 {
        arch_soc_id_result(regs[1] as u32, spec_call_type(function))
    } else if function == SMCCC_ARCH_WORKAROUND_1 || function == SMCCC_ARCH_WORKAROUND_2
        || function == SMCCC_ARCH_WORKAROUND_3 {
        Seq::empty()
    } else {
        seq![i32_reg(NOT_SUPPORTED)]
    }
}

/// Arm architecture SMCs.
pub struct Arch;

impl Service for Arch {
    fn owns(&self, function: FunctionId) -> (r: bool)
        ensures
            r == arch_owns(function.0),
    {
        function_owned_by(function, OEN_ARM_ARCHITECTURE)
    }

    fn handle_non_secure_smc(&self, regs: &[u64; 18]) -> (r: (SmcReturn, World))
        ensures
            r.0@ == arch_result(regs@),
            r.1 == World::NonSecure,
    {
        (Self::handle_common_smc(regs), World::NonSecure)
    }

    fn handle_secure_smc(&self, regs: &[u64; 18]) -> (r: (SmcReturn, World))
        ensures
            r.0@ == arch_result(regs@),
            r.1 == World::Secure,
    {
        (Self::handle_common_smc(regs), World::Secure)
    }

    fn handle_realm_smc(&self, regs: &[u64; 18]) -> (r: (SmcReturn, World))
        ensures
            r.0@ == arch_result(regs@),
            r.1 == World::Realm,
    {
        (Self::handle_common_smc(regs), World::Realm)
    }
}

impl Arch {
    /// Creates the service.
    pub fn new() -> (r: Self) {
        Arch
    }

    /// Handles an Arm architecture call with the given argument registers.
    pub fn handle_common_smc(regs: &[u64; 18]) -> (r: SmcReturn)
        ensures
            r.wf(),
            r@ == arch_result(regs@),
    {
        let mut function = FunctionId(regs[0] as u32);
        function.clear_sve_hint();
        let f = function.0;

        if f == SMCCC_VERSION {
            SmcReturn::from_i32(version())
        } else if f == SMCCC_ARCH_FEATURES {
            SmcReturn::from_i32(arch_features(regs[1] as u32))
        } else if f == SMCCC_ARCH_SOC_ID_32 || f == SMCCC_ARCH_SOC_ID_64 {
            arch_soc_id(regs[1] as u32, function.call_type())
        } else if f == SMCCC_ARCH_WORKAROUND_1 {
            arch_workaround_1();
            SmcReturn::empty()
        } else if f == SMCCC_ARCH_WORKAROUND_2 {
            arch_workaround_2(regs[1] as u32);
            SmcReturn::empty()
        } else if f == SMCCC_ARCH_WORKAROUND_3 {
            arch_workaround_3();
            SmcReturn::empty()
        } else {
            SmcReturn::from_i32(NOT_SUPPORTED)
        }
    }
}

/// Returns the implemented SMCCC version.
pub fn version() -> (r: i32)
    ensures
        r == SMCCC_VERSION_1_5,
{
    SMCCC_VERSION_1_5
}

/// Returns whether the given Arm architecture function is implemented.
pub fn arch_features(arch_func_id: u32) -> (r: i32)
    ensures
        r == arch_features_result(arch_func_id),
{
    if arch_func_id == SMCCC_VERSION || arch_func_id == SMCCC_ARCH_FEATURES
        || arch_func_id == SMCCC_ARCH_SOC_ID_32 || arch_func_id == SMCCC_ARCH_SOC_ID_64 {
        SUCCESS
    } else if arch_func_id == SMCCC_ARCH_WORKAROUND_1 {
        PlatformImpl::arch_workaround_1_supported().code()
    } else if arch_func_id == SMCCC_ARCH_WORKAROUND_2 {
        PlatformImpl::arch_workaround_2_supported().code()
    } else if arch_func_id == SMCCC_ARCH_WORKAROUND_3 {
        PlatformImpl::arch_workaround_3_supported().code()
    } else if arch_func_id == SMCCC_ARCH_WORKAROUND_4 {
        PlatformImpl::arch_workaround_4_supported().code()
    } else {
        NOT_SUPPORTED
    }
}

/// Answers SMCCC_ARCH_SOC_ID (SMCCC §7.4). The SoC name is only available through the SMC64
/// call.
pub fn arch_soc_id(soc_id_type: u32, call_type: SmcccCallType) -> (r: SmcReturn)
    ensures
        r.wf(),
        r@ == arch_soc_id_result(soc_id_type, call_type),
{
    if soc_id_type == SMCCC_ARCH_SOC_ID_VERSION || soc_id_type == SMCCC_ARCH_SOC_ID_REVISION {
        SmcReturn::from_i32(0)
    } else if soc_id_type == SMCCC_ARCH_SOC_ID_NAME && call_type == SmcccCallType::Fast64 {
        let words: [u64; 5] = [0u64, SOC_NAME_WORD_0, SOC_NAME_WORD_1, SOC_NAME_WORD_2, SOC_NAME_WORD_3];
        let r = SmcReturn::from_slice(&words);
        assert(r@ =~= seq![0u64, SOC_NAME_WORD_0, SOC_NAME_WORD_1, SOC_NAME_WORD_2, SOC_NAME_WORD_3]);
        r
    } else {
        SmcReturn::from_i32(INVALID_PARAMETER)
    }
}

/// Executes the mitigation for CVE-2017-5715 on the calling PE, where the platform requires it.
pub fn arch_workaround_1() {
    if PlatformImpl::arch_workaround_1_supported() == WorkaroundSupport::Required {
        PlatformImpl::arch_workaround_1()
    }
}

/// Enables the mitigation for CVE-2018-3639 on the calling PE, where the platform requires it.
/// The argument is ignored.
pub fn arch_workaround_2(_enable: u32) {
    if PlatformImpl::arch_workaround_2_supported() == WorkaroundSupport::Required {
        PlatformImpl::arch_workaround_2()
    }
}

/// Executes the mitigation for CVE-2017-5715 and CVE-2022-23960 on the calling PE, where the
/// platform requires it.
pub fn arch_workaround_3() {
    if PlatformImpl::arch_workaround_3_supported() == WorkaroundSupport::Required {
        PlatformImpl::arch_workaround_3()
    }
}

} // verus!
