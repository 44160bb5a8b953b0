//! The hooks that each platform provides, and the platform this firmware is built for.

pub mod fvp;
pub mod qemu;
pub mod test;

use crate::services::arch::WorkaroundSupport;
use crate::services::Service;
use crate::smccc::FunctionId;
use vstd::prelude::*;

verus! {

/// The platform the firmware is built for.
pub type PlatformImpl = fvp::Fvp;

/// For platforms that do not want to implement any custom SMC handlers.
pub struct DummyService;

impl Service for DummyService {
    fn owns(&self, _function: FunctionId) -> (r: bool)
        ensures
            !r,
    {
        // Does not own any function id.
        false
    }
}

/// The MT bit of MPIDR_EL1: the lowest affinity level holds threads.
pub const MPIDR_MT: u64 = 0x0100_0000;
/// The U bit of MPIDR_EL1: the core is part of a uniprocessor system.
pub const MPIDR_U: u64 = 0x4000_0000;

/// Affinity field `level` (0 to 3) of an MPIDR_EL1 value.
pub open spec fn spec_affinity(mpidr: u64, level: u64) -> u64 {
    if level == 3 {
        (mpidr >> 32u64) & 0xff
    } else {
        (mpidr >> (8 * level) as u64) & 0xff
    }
}

/// Returns affinity field `level` (0 to 3) of an MPIDR_EL1 value.
pub fn affinity(mpidr: u64, level: u64) -> (r: u64)
    requires
        level <= 3,
    ensures
        r == spec_affinity(mpidr, level),
        r <= 0xff,
{
    let r = if level == 3 {
        (mpidr >> 32u64) & 0xff
    } else {
        (mpidr >> (8 * level)) & 0xff
    };
    assert(r & 0xff <= 0xff) by (bit_vector);
    assert(((mpidr >> 32u64) & 0xff) & 0xff == (mpidr >> 32u64) & 0xff) by (bit_vector);
    assert(forall|s: u64| ((mpidr >> s) & 0xff) & 0xff == (mpidr >> s) & 0xff) by (bit_vector);
    r
}

/// The hooks implemented by all platforms.
pub trait Platform {
    /// The number of CPU cores.
    spec fn spec_core_count() -> nat;

    /// Whether the given MPIDR_EL1 value is valid for this platform.
    spec fn spec_mpidr_is_valid(mpidr: u64) -> bool;

    /// The linear core index of an MPIDR_EL1 value.
    spec fn spec_core_position(mpidr: u64) -> nat;

    /// A valid MPIDR_EL1 value has a core index below the core count.
    proof fn lemma_core_position(mpidr: u64)
        ensures
            Self::spec_mpidr_is_valid(mpidr) ==> Self::spec_core_position(mpidr) < Self::spec_core_count(),
    ;

    /// Returns the number of CPU cores.
    fn core_count() -> (r: usize)
        ensures
            r == Self::spec_core_count(),
    ;

    /// Returns whether the given MPIDR_EL1 value is valid for this platform.
    fn mpidr_is_valid(mpidr: u64) -> (r: bool)
        ensures
            r == Self::spec_mpidr_is_valid(mpidr),
    ;

    /// Returns the linear core index of an MPIDR_EL1 value; below the core count where the value
    /// is valid, with no guarantee otherwise.
    fn core_position(mpidr: u64) -> (r: usize)
        ensures
            r == Self::spec_core_position(mpidr),
    ;

    /// Whether this platform supports the arch WORKAROUND_1 SMC.
    spec fn spec_arch_workaround_1_supported() -> WorkaroundSupport;

    /// Whether this platform supports the arch WORKAROUND_2 SMC.
    spec fn spec_arch_workaround_2_supported() -> WorkaroundSupport;

    /// Whether this platform supports the arch WORKAROUND_3 SMC.
    spec fn spec_arch_workaround_3_supported() -> WorkaroundSupport;

    /// Whether this platform supports the arch WORKAROUND_4 SMC.
    spec fn spec_arch_workaround_4_supported() -> WorkaroundSupport;

    /// Returns whether this platform supports the arch WORKAROUND_1 SMC.
    fn arch_workaround_1_supported() -> (r: WorkaroundSupport)
        ensures
            r == Self::spec_arch_workaround_1_supported(),
    ;

    /// If safe and necessary, performs the workaround specified for the WORKAROUND_1 SMC.
    fn arch_workaround_1();

    /// Returns whether this platform supports the arch WORKAROUND_2 SMC.
    fn arch_workaround_2_supported() -> (r: WorkaroundSupport)
        ensures
            r == Self::spec_arch_workaround_2_supported(),
    ;

    /// If safe and necessary, performs the workaround specified for the WORKAROUND_2 SMC.
    fn arch_workaround_2();

    /// Returns whether this platform supports the arch WORKAROUND_3 SMC.
    fn arch_workaround_3_supported() -> (r: WorkaroundSupport)
        ensures
            r == Self::spec_arch_workaround_3_supported(),
    ;

    /// If safe and necessary, performs the workaround specified for the WORKAROUND_3 SMC.
    fn arch_workaround_3();

    /// Returns whether this platform supports the arch WORKAROUND_4 SMC.
    fn arch_workaround_4_supported() -> (r: WorkaroundSupport)
        ensures
            r == Self::spec_arch_workaround_4_supported(),
    ;
}

} // verus!
