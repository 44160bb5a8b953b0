//! Arm CCA SMCs, for communication between this firmware and the Realm Management Monitor
//! (RMM-EL3 communication interface).

pub mod manifest;
pub mod smc;

use crate::context::World;
use crate::services::{function_in_range, owns_range};
use crate::smccc::{i32_reg, FunctionId, SmcReturn, NOT_SUPPORTED, OEN_STANDARD_SECURE, SVE_HINT_BIT};
use smc::{EccCurve, RecAttestGetRealmKeyResponse, RecCall, RecCommandReturnCode, RecEl3FeaturesResponse, realm_response, response_regs, rec_call_valid, return_code_value};
use vstd::prelude::*;

verus! {

/// Size in bytes of the EL3 - RMM shared area.
pub const RMM_SHARED_BUFFER_SIZE: usize = 0x1000;

/// RMM_BOOT_COMPLETE function identifier.
pub const RMM_BOOT_COMPLETE: u32 = 0xC400_01CF;

/// Lowest function number of the interface.
pub const FUNCTION_NUMBER_MIN: u16 = 0x0150;
/// Highest function number of the interface.
pub const FUNCTION_NUMBER_MAX: u16 = 0x01CF;

/// Results of the RMM boot.
#[derive(Copy, Clone, Debug, Eq, PartialEq, Structural)]
pub enum RmmBootReturn {
    /// The RMM booted (0).
    Success,
    /// Unknown error (-1), also for any value not listed.
    Unknown,
    /// Interface version mismatch (-2).
    VersionMismatch,
    /// Too many CPUs (-3).
    CpusOutOfRange,
    /// CPU identifier out of range (-4).
    CpuIdOutOfRange,
    /// Invalid shared buffer (-5).
    InvalidSharedBuffer,
    /// Boot manifest version not supported (-6).
    ManifestVersionNotSupported,
    /// Boot manifest data error (-7).
    ManifestDataError,
}

/// The boot result that a return value reports.
pub open spec fn boot_return(value: i32) -> RmmBootReturn {
    if value == 0 {
        RmmBootReturn::Success
    } else if value == -2 {
        RmmBootReturn::VersionMismatch
    } else if value == -3 {
        RmmBootReturn::CpusOutOfRange
    } else if value == -4 {
        RmmBootReturn::CpuIdOutOfRange
    } else if value == -5 {
        RmmBootReturn::InvalidSharedBuffer
    } else if value == -6 {
        RmmBootReturn::ManifestVersionNotSupported
    } else if value == -7 {
        RmmBootReturn::ManifestDataError
    } else {
        RmmBootReturn::Unknown
    }
}

impl RmmBootReturn {
    /// Decodes a boot result; values that are not listed are `Unknown`.
    pub fn from_i32(value: i32) -> (r: Self)
        ensures
            r == boot_return(value),
    {
        if value == 0 {
            RmmBootReturn::Success
        } else if value == -2 {
            RmmBootReturn::VersionMismatch
        } else if value == -3 {
            RmmBootReturn::CpusOutOfRange
        } else if value == -4 {
            RmmBootReturn::CpuIdOutOfRange
        } else if value == -5 {
            RmmBootReturn::InvalidSharedBuffer
        } else if value == -6 {
            RmmBootReturn::ManifestVersionNotSupported
        } else if value == -7 {
            RmmBootReturn::ManifestDataError
        } else {
            RmmBootReturn::Unknown
        }
    }
}

/// Returns the registers that answer RMM_BOOT_COMPLETE: the boot result in `x1`, as a 32-bit
/// status code.
pub fn rmm_boot_complete(regs: &[u64; 18]) -> (r: SmcReturn)
    ensures
        r.wf(),
        r@ == seq![i32_reg(regs@[1] as i32)],
{
    let ret = regs[1] as i32;
    SmcReturn::from_i32(ret)
}

/// What to do with a call from the Realm world.
#[derive(Debug)]
pub enum RealmCallAction {
    /// The RMM finished booting with the given result; a non-zero result is fatal, otherwise the
    /// registers are returned to the normal world.
    BootComplete { result: i32, regs: SmcReturn },
    /// Return these registers to the given world.
    Reply { regs: SmcReturn, world: World },
    /// Write the realm attestation key for the curve into the shared buffer, then answer with its
    /// size.
    WriteRealmKey { ecc_curve: EccCurve },
    /// The command is recognised but not implemented.
    Unimplemented { call: RecCall },
}

/// Whether the range of `size` bytes at `pa` lies inside the shared buffer starting at `start`:
/// its first byte and, if any, last byte inside it.
pub open spec fn in_shared_buffer(start: int, pa: int) -> bool {
    start <= pa < start + RMM_SHARED_BUFFER_SIZE
}

/// Arm CCA SMCs, for communication between this firmware and TF-RMM.
pub struct Rmmd {
    shared_buffer_start: usize,
}

impl Rmmd {
    /// The start of the EL3 - RMM shared buffer.
    pub closed spec fn spec_shared_buffer_start(&self) -> int {
        self.shared_buffer_start as int
    }

    /// Creates the service for the shared buffer at the given address.
    pub fn new(shared_buffer_start: usize) -> (r: Self)
        requires
            shared_buffer_start + RMM_SHARED_BUFFER_SIZE <= usize::MAX,
        ensures
            r.spec_shared_buffer_start() == shared_buffer_start,
    {
        Rmmd { shared_buffer_start }
    }

    /// Returns whether this service handles the given function.
    pub fn owns(&self, function: FunctionId) -> (r: bool)
        ensures
            r == owns_range(function.0, OEN_STANDARD_SECURE, FUNCTION_NUMBER_MIN, FUNCTION_NUMBER_MAX),
    {
        function_in_range(function, OEN_STANDARD_SECURE, FUNCTION_NUMBER_MIN, FUNCTION_NUMBER_MAX)
    }

    /// Handles a call from the normal world: it is passed on, unchanged, to the Realm world.
    pub fn handle_non_secure_smc(&self, regs: &[u64; 18]) -> (r: (SmcReturn, World))
        ensures
            r.0.wf(),
            r.0@ == regs@,
            r.1 == World::Realm,
    {
        (SmcReturn::from_slice(regs), World::Realm)
    }

    /// Decides how to handle a call from the Realm world.
    ///
    /// * RMM_BOOT_COMPLETE ends the RMM boot with the result in `x1`.
    /// * A malformed command is answered with `NOT_SUPPORTED`.
    /// * RMI_REQ_COMPLETE passes `x1`-`x6` to the normal world in `x0`-`x5`, other registers 0.
    /// * ATTEST_GET_REALM_KEY checks that the buffer's first and last bytes lie in the shared
    ///   buffer (`BadAddress`, then `InvalidValue` otherwise) before asking for the key.
    /// * EL3_FEATURES answers a feature register of 0, MEC_REFRESH `NOT_SUPPORTED`.
    /// * The other commands are not implemented.
    pub fn handle_realm_call(&self, regs: &[u64; 18]) -> (r: RealmCallAction)
        requires
            self.spec_shared_buffer_start() + RMM_SHARED_BUFFER_SIZE <= usize::MAX,
        ensures
            ((regs@[0] as u32) & !SVE_HINT_BIT) == RMM_BOOT_COMPLETE ==> r == (RealmCallAction::BootComplete {
                result: regs@[1] as i32,
                regs: r->BootComplete_regs,
            }) && r->BootComplete_regs@ == seq![i32_reg(regs@[1] as i32)],
            ((regs@[0] as u32) & !SVE_HINT_BIT) != RMM_BOOT_COMPLETE && !rec_call_valid(regs@) ==> (
            r matches RealmCallAction::Reply { regs: out, world } && out@ == seq![i32_reg(NOT_SUPPORTED)] && world == World::Realm),
            ((regs@[0] as u32) & !SVE_HINT_BIT) != RMM_BOOT_COMPLETE && regs@[0] == smc::RMI_REQ_COMPLETE ==> (
            r matches RealmCallAction::Reply { regs: out, world } && out@ == regs@.subrange(1, 7) + Seq::new(12, |i: int| 0u64) && world == World::NonSecure),
            ((regs@[0] as u32) & !SVE_HINT_BIT) != RMM_BOOT_COMPLETE && regs@[0] == smc::ATTEST_GET_REALM_KEY && regs@[3] == 0 ==> {
                if !in_shared_buffer(self.spec_shared_buffer_start(), regs@[1] as int) {
                    r matches RealmCallAction::Reply { regs: out, world } && out@ == response_regs(seq![return_code_value(RecCommandReturnCode::BadAddress)]) && world == World::Realm
                } else if regs@[2] == 0 || !in_shared_buffer(self.spec_shared_buffer_start(), regs@[1] + regs@[2] - 1) {
                    r matches RealmCallAction::Reply { regs: out, world } && out@ == response_regs(seq![return_code_value(RecCommandReturnCode::InvalidValue)]) && world == World::Realm
                } else {
                    r == RealmCallAction::WriteRealmKey { ecc_curve: EccCurve::EccSecp384r1 }
                }
            },
            ((regs@[0] as u32) & !SVE_HINT_BIT) != RMM_BOOT_COMPLETE && regs@[0] == smc::EL3_FEATURES ==> (
            r matches RealmCallAction::Reply { regs: out, world } && out@ == response_regs(seq![0u64, 0u64]) && world == World::Realm),
            ((regs@[0] as u32) & !SVE_HINT_BIT) != RMM_BOOT_COMPLETE && rec_call_valid(regs@) && regs@[0] == smc::MEC_REFRESH ==> (
            r matches RealmCallAction::Reply { regs: out, world } && out@ == seq![i32_reg(NOT_SUPPORTED)] && world == World::Realm),
            ((regs@[0] as u32) & !SVE_HINT_BIT) != RMM_BOOT_COMPLETE && rec_call_valid(regs@) && !(regs@[0] == smc::RMI_REQ_COMPLETE
                || regs@[0] == smc::ATTEST_GET_REALM_KEY || regs@[0] == smc::EL3_FEATURES || regs@[0] == smc::MEC_REFRESH) ==> (
            r matches RealmCallAction::Unimplemented { call } && smc::rec_call_decodes(regs@, call)),
    {
        let mut function = FunctionId(regs[0] as u32);
        function.clear_sve_hint();

        if function.0 == RMM_BOOT_COMPLETE {
            let out = rmm_boot_complete(regs);
            return RealmCallAction::BootComplete { result: regs[1] as i32, regs: out };
        }
        let command = match RecCall::from_regs(regs) {
            Ok(c) => c,
            Err(_) => {
                return RealmCallAction::Reply { regs: SmcReturn::from_i32(NOT_SUPPORTED), world: World::Realm };
            },
        };
        let start = self.shared_buffer_start;
        match command {
            RecCall::RmiReqComplete { .. } => {
                // Only x1-x6 are used for RMI return values, the remaining ones MBZ.
                let mut out: [u64; 18] = vstd::array::array_fill_for_copy_types(0u64);
                let mut i: usize = 0;
                while i < 6
                    invariant
                        i <= 6,
                        forall|j: int| 0 <= j < i ==> out@[j] == regs@[j + 1],
                        forall|j: int| i <= j < 18 ==> out@[j] == 0,
                    decreases 6 - i,
                {
                    out[i] = regs[i + 1];
                    i = i + 1;
                }
                let out_regs = SmcReturn::from_slice(&out);
                assert(out@ =~= regs@.subrange(1, 7) + Seq::new(12, |i: int| 0u64));
                RealmCallAction::Reply { regs: out_regs, world: World::NonSecure }
            },
            RecCall::AttestGetRealmKey { buf_pa, buf_size, ecc_curve } => {
                // Perform sanity checks on the received buffer range.
                if !(start as u64 <= buf_pa && buf_pa < (start + RMM_SHARED_BUFFER_SIZE) as u64) {
                    let (out, world) = realm_response(&RecCommandReturnCode::BadAddress);
                    return RealmCallAction::Reply { regs: out, world };
                }
                if buf_size == 0 || buf_size - 1 >= (start + RMM_SHARED_BUFFER_SIZE) as u64 - buf_pa {
                    let (out, world) = realm_response(&RecCommandReturnCode::InvalidValue);
                    return RealmCallAction::Reply { regs: out, world };
                }
                RealmCallAction::WriteRealmKey { ecc_curve }
            },
            RecCall::El3Features { .. } => {
                let (out, world) = realm_response(&RecEl3FeaturesResponse { feat_reg: 0 });
                RealmCallAction::Reply { regs: out, world }
            },
            // Memory encryption is not implemented: the RMM must not enable it.
            RecCall::MecRefresh { .. } => {
                RealmCallAction::Reply { regs: SmcReturn::from_i32(NOT_SUPPORTED), world: World::Realm }
            },
            call => RealmCallAction::Unimplemented { call },
        }
    }
}


/// The answer to ATTEST_GET_REALM_KEY once the platform wrote the key to the shared buffer: the
/// key's size, or `Unk` if the platform could not write it.
pub fn realm_key_response(written: Result<usize, ()>) -> (r: (SmcReturn, World))
    ensures
        r.0.wf(),
        r.1 == World::Realm,
        written matches Ok(size) ==> r.0@ == response_regs(seq![0u64, size as u64]),
        written is Err ==> r.0@ == response_regs(seq![return_code_value(RecCommandReturnCode::Unk)]),
{
    match written {
        Ok(size) => realm_response(&RecAttestGetRealmKeyResponse { key_size: size as u64 }),
        Err(_) => realm_response(&RecCommandReturnCode::Unk),
    }
}

} // verus!
