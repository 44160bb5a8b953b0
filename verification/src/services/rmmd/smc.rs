//! Commands that the RMM sends to EL3 (RMM-EL3 communication interface) and the responses to
//! them.

use crate::context::World;
use crate::smccc::SmcReturn;
use vstd::prelude::*;

verus! {

/// Errors in decoding a command.
#[derive(Debug, Clone, Copy, PartialEq, Eq, Structural)]
pub enum Error {
    /// The command or one of its arguments is not recognised.
    MalformedCommand,
}

/// Return codes of RMM-EL3 commands.
#[derive(Debug, Clone, Copy, PartialEq, Eq, Structural)]
pub enum RecCommandReturnCode {
    /// Success.
    Success,
    /// Unknown error.
    Unk,
    /// The address is invalid.
    BadAddress,
    /// The physical address space is invalid.
    BadPas,
    /// Out of memory.
    NoMemory,
    /// A value is invalid.
    InvalidValue,
    /// Try again.
    Again,
}

/// The register value of a return code.
pub open spec fn return_code_value(c: RecCommandReturnCode) -> u64 {
    match c {
        RecCommandReturnCode::Success => 0,
        RecCommandReturnCode::Unk => 0xFFFF_FFFF,
        RecCommandReturnCode::BadAddress => 0xFFFF_FFFE,
        RecCommandReturnCode::BadPas => 0xFFFF_FFFD,
        RecCommandReturnCode::NoMemory => 0xFFFF_FFFC,
        RecCommandReturnCode::InvalidValue => 0xFFFF_FFFB,
        RecCommandReturnCode::Again => 0xFFFF_FFFA,
    }
}

impl RecCommandReturnCode {
    /// Returns the register value of the return code.
    pub fn value(self) -> (r: u64)
        ensures
            r == return_code_value(self),
    {
        match self {
            RecCommandReturnCode::Success => 0,
            RecCommandReturnCode::Unk => 0xFFFF_FFFF,
            RecCommandReturnCode::BadAddress => 0xFFFF_FFFE,
            RecCommandReturnCode::BadPas => 0xFFFF_FFFD,
            RecCommandReturnCode::NoMemory => 0xFFFF_FFFC,
            RecCommandReturnCode::InvalidValue => 0xFFFF_FFFB,
            RecCommandReturnCode::Again => 0xFFFF_FFFA,
        }
    }

    /// Decodes a return code; other values are malformed.
    pub fn try_from_u64(v: u64) -> (r: Result<Self, Error>)
        ensures
            r matches Ok(c) ==> return_code_value(c) == v,
            r is Err <==> !(v == 0 || 0xFFFF_FFFA <= v <= 0xFFFF_FFFF),
    {
        if v == 0 {
            Ok(RecCommandReturnCode::Success)
        } else if v == 0xFFFF_FFFF {
            Ok(RecCommandReturnCode::Unk)
        } else if v == 0xFFFF_FFFE {
            Ok(RecCommandReturnCode::BadAddress)
        } else if v == 0xFFFF_FFFD {
            Ok(RecCommandReturnCode::BadPas)
        } else if v == 0xFFFF_FFFC {
            Ok(RecCommandReturnCode::NoMemory)
        } else if v == 0xFFFF_FFFB {
            Ok(RecCommandReturnCode::InvalidValue)
        } else if v == 0xFFFF_FFFA {
            Ok(RecCommandReturnCode::Again)
        } else {
            Err(Error::MalformedCommand)
        }
    }
}

/// Elliptic curves of realm attestation keys.
#[derive(Debug, Clone, Copy, PartialEq, Eq, Structural)]
pub enum EccCurve {
    /// SECP384R1 (value 0).
    EccSecp384r1,
}

impl EccCurve {
    /// Decodes a curve: only 0 is known.
    pub fn try_from_u64(v: u64) -> (r: Result<Self, Error>)
        ensures
            r == (if v == 0 { Ok(EccCurve::EccSecp384r1) } else { Err::<EccCurve, Error>(Error::MalformedCommand) }),
    {
        if v == 0 {
            Ok(EccCurve::EccSecp384r1)
        } else {
            Err(Error::MalformedCommand)
        }
    }
}

/// Operations of the EL3 token signing command.
#[derive(Debug, Clone, Copy, PartialEq, Eq, Structural)]
pub enum El3TokenSignOpcode {
    /// Push a request (value 0).
    Push,
    /// Pull a response (value 1).
    Pull,
    /// Get the realm attestation key (value 2).
    GetRak,
}

/// The decoding of a token signing operation.
pub open spec fn token_sign_opcode(v: u64) -> Result<El3TokenSignOpcode, Error> {
    if v == 0 {
        Ok(El3TokenSignOpcode::Push)
    } else if v == 1 {
        Ok(El3TokenSignOpcode::Pull)
    } else if v == 2 {
        Ok(El3TokenSignOpcode::GetRak)
    } else {
        Err(Error::MalformedCommand)
    }
}

impl El3TokenSignOpcode {
    /// Decodes an operation: 0, 1 or 2.
    pub fn try_from_u64(v: u64) -> (r: Result<Self, Error>)
        ensures
            r == token_sign_opcode(v),
    {
        if v == 0 {
            Ok(El3TokenSignOpcode::Push)
        } else if v == 1 {
            Ok(El3TokenSignOpcode::Pull)
        } else if v == 2 {
            Ok(El3TokenSignOpcode::GetRak)
        } else {
            Err(Error::MalformedCommand)
        }
    }
}

/// Reasons for refreshing a memory encryption context.
#[derive(Debug, Clone, Copy, PartialEq, Eq, Structural)]
pub enum MecRefreshReason {
    /// A realm is being created (value 0).
    RealmCreation,
    /// A realm is being destroyed (value 1).
    RealmDestruction,
}

/// The decoding of a refresh reason.
pub open spec fn mec_refresh_reason(v: u64) -> Result<MecRefreshReason, Error> {
    if v == 0 {
        Ok(MecRefreshReason::RealmCreation)
    } else if v == 1 {
        Ok(MecRefreshReason::RealmDestruction)
    } else {
        Err(Error::MalformedCommand)
    }
}

impl MecRefreshReason {
    /// Decodes a reason: 0 or 1.
    pub fn try_from_u64(v: u64) -> (r: Result<Self, Error>)
        ensures
            r == mec_refresh_reason(v),
    {
        if v == 0 {
            Ok(MecRefreshReason::RealmCreation)
        } else if v == 1 {
            Ok(MecRefreshReason::RealmDestruction)
        } else {
            Err(Error::MalformedCommand)
        }
    }
}

/// Selects a PCIe IDE stream.
#[derive(Debug, Clone, PartialEq, Eq, Structural)]
pub struct StreamSelector {
    /// Key set (bit 12).
    pub keyset: bool,
    /// Direction (bit 11).
    pub dir: bool,
    /// Sub-stream (bits [10:8]).
    pub substream: u8,
    /// Stream identifier (bits [7:0]).
    pub stream_id: u8,
}

/// The stream selector encoded in a register.
pub open spec fn stream_selector(reg: u64) -> StreamSelector {
    StreamSelector {
        keyset: reg & 0x1000 == 0x1000,
        dir: reg & 0x800 == 0x800,
        substream: ((reg >> 8u64) & 7) as u8,
        stream_id: (reg % 256) as u8,
    }
}

impl StreamSelector {
    /// Decodes a stream selector from a register.
    pub fn from_reg(reg: u64) -> (r: Self)
        ensures
            r == stream_selector(reg),
    {
        assert((reg as u8) == reg % 256) by (bit_vector);
        assert((reg >> 8u64) & 7 < 8) by (bit_vector);
        StreamSelector {
            keyset: reg & 0x1000 == 0x1000,
            dir: reg & 0x800 == 0x800,
            substream: ((reg >> 8u64) & 7) as u8,
            stream_id: reg as u8,
        }
    }
}

/// RMI_REQ_COMPLETE function identifier.
pub const RMI_REQ_COMPLETE: u64 = 0xC400_018F;
/// GTSI_DELEGATE function identifier.
pub const GTSI_DELEGATE: u64 = 0xC400_01B0;
/// GTSI_UNDELEGATE function identifier.
pub const GTSI_UNDELEGATE: u64 = 0xC400_01B1;
/// ATTEST_GET_REALM_KEY function identifier.
pub const ATTEST_GET_REALM_KEY: u64 = 0xC400_01B2;
/// ATTEST_GET_PLAT_TOKEN function identifier.
pub const ATTEST_GET_PLAT_TOKEN: u64 = 0xC400_01B3;
/// EL3_FEATURES function identifier.
pub const EL3_FEATURES: u64 = 0xC400_01B4;
/// EL3_TOKEN_SIGN function identifier.
pub const EL3_TOKEN_SIGN: u64 = 0xC400_01B5;
/// MEC_REFRESH function identifier.
pub const MEC_REFRESH: u64 = 0xC400_01B6;
/// IDE_KEY_PROG function identifier.
pub const IDE_KEY_PROG: u64 = 0xC400_01B7;
/// IDE_KEY_SET_GO function identifier.
pub const IDE_KEY_SET_GO: u64 = 0xC400_01B8;
/// IDE_KEY_SET_STOP function identifier.
pub const IDE_KEY_SET_STOP: u64 = 0xC400_01B9;
/// IDE_KM_PULL_RESPONSE function identifier.
pub const IDE_KM_PULL_RESPONSE: u64 = 0xC400_01BA;
/// RESERVE_MEMORY function identifier.
pub const RESERVE_MEMORY: u64 = 0xC400_01BB;

/// A command from the RMM.
#[derive(Debug, Clone, PartialEq, Eq)]
pub enum RecCall {
    /// An RMI call has completed; x1-x6 hold its results.
    RmiReqComplete { regs: [u64; 6] },
    /// Delegate a granule to the realm PAS.
    GtsiDelegate { base_pa: u64 },
    /// Undelegate a granule from the realm PAS.
    GtsiUndelegate { base_pa: u64 },
    /// Get the realm attestation key.
    AttestGetRealmKey { buf_pa: u64, buf_size: u64, ecc_curve: EccCurve },
    /// Get the platform attestation token.
    AttestGetPlatToken { buf_pa: u64, buf_size: u64, c_size: u64 },
    /// Read an EL3 feature register.
    El3Features { feat_reg_idx: u64 },
    /// Sign a token with the realm attestation key.
    El3TokenSign { opcode: El3TokenSignOpcode, buf_pa: u64, buf_size: u64, ecc_curve: EccCurve },
    /// Refresh a memory encryption context.
    MecRefresh { mecid: u16, reason: MecRefreshReason },
    /// Program an IDE key.
    IdeKeyProg {
        ecam_address: u64,
        rp_id: u64,
        stream: StreamSelector,
        keq_qw: [u64; 4],
        ifv_qw: [u64; 2],
        request_id: u64,
        cookie: u64,
    },
    /// Start using an IDE key set.
    IdeKeySetGo { ecam_address: u64, rp_id: u64, stream: StreamSelector, request_id: u64, cookie: u64 },
    /// Stop using an IDE key set.
    IdeKeySetStop { ecam_address: u64, rp_id: u64, stream: StreamSelector, request_id: u64, cookie: u64 },
    /// Pull the response of an IDE key management request.
    IdeKmPullResponse { ecam_address: u64, rp_id: u64 },
    /// Reserve memory.
    ReserveMemory { size: u64, alignment: u8, local_cpu: bool },
}

/// The number of argument registers (x0 included) that decoding a command reads.
pub open spec fn rec_call_regs_needed(id: u64) -> int {
    if id == RMI_REQ_COMPLETE {
        7
    } else if id == GTSI_DELEGATE || id == GTSI_UNDELEGATE || id == EL3_FEATURES {
        2
    } else if id == ATTEST_GET_REALM_KEY || id == ATTEST_GET_PLAT_TOKEN || id == RESERVE_MEMORY {
        4
    } else if id == EL3_TOKEN_SIGN {
        5
    } else if id == MEC_REFRESH || id == IDE_KM_PULL_RESPONSE {
        3
    } else if id == IDE_KEY_PROG {
        13
    } else if id == IDE_KEY_SET_GO || id == IDE_KEY_SET_STOP {
        6
    } else {
        1
    }
}

/// Whether `call` is the decoding of the registers `regs`.
pub open spec fn rec_call_decodes(regs: Seq<u64>, call: RecCall) -> bool {
    let id = regs[0];
    if id == RMI_REQ_COMPLETE {
        call matches RecCall::RmiReqComplete { regs: r } && r@ == regs.subrange(1, 7)
    } else if id == GTSI_DELEGATE {
        call == RecCall::GtsiDelegate { base_pa: regs[1] }
    } else if id == GTSI_UNDELEGATE {
        call == RecCall::GtsiUndelegate { base_pa: regs[1] }
    } else if id == ATTEST_GET_REALM_KEY {
        regs[3] == 0 && call == RecCall::AttestGetRealmKey {
            buf_pa: regs[1],
            buf_size: regs[2],
            ecc_curve: EccCurve::EccSecp384r1,
        }
    } else if id == ATTEST_GET_PLAT_TOKEN {
        call == RecCall::AttestGetPlatToken { buf_pa: regs[1], buf_size: regs[2], c_size: regs[3] }
    } else if id == EL3_FEATURES {
        call == RecCall::El3Features { feat_reg_idx: regs[1] }
    } else if id == EL3_TOKEN_SIGN {
        regs[4] == 0 && token_sign_opcode(regs[1]) is Ok && call == RecCall::El3TokenSign {
            opcode: token_sign_opcode(regs[1])->Ok_0,
            buf_pa: regs[2],
            buf_size: regs[3],
            ecc_curve: EccCurve::EccSecp384r1,
        }
    } else if id == MEC_REFRESH {
        mec_refresh_reason(regs[2]) is Ok && call == RecCall::MecRefresh {
            mecid: (regs[1] % 0x1_0000) as u16,
            reason: mec_refresh_reason(regs[2])->Ok_0,
        }
    } else if id == IDE_KEY_PROG {
        call matches RecCall::IdeKeyProg {
            ecam_address,
            rp_id,
            stream,
            keq_qw,
            ifv_qw,
            request_id,
            cookie,
        } && ecam_address == regs[1] && rp_id == regs[2] && stream == stream_selector(regs[3])
            && keq_qw@ == regs.subrange(4, 8) && ifv_qw@ == regs.subrange(8, 10) && request_id
            == regs[10] && cookie == regs[12]
    } else if id == IDE_KEY_SET_GO {
        call == RecCall::IdeKeySetGo {
            ecam_address: regs[1],
            rp_id: regs[2],
            stream: stream_selector(regs[3]),
            request_id: regs[4],
            cookie: regs[5],
        }
    } else if id == IDE_KEY_SET_STOP {
        call == RecCall::IdeKeySetStop {
            ecam_address: regs[1],
            rp_id: regs[2],
            stream: stream_selector(regs[3]),
            request_id: regs[4],
            cookie: regs[5],
        }
    } else if id == IDE_KM_PULL_RESPONSE {
        call == RecCall::IdeKmPullResponse { ecam_address: regs[1], rp_id: regs[2] }
    } else if id == RESERVE_MEMORY {
        call == RecCall::ReserveMemory {
            size: regs[1],
            alignment: (regs[2] >> 56u64) as u8,
            local_cpu: regs[3] & 1 == 1,
        }
    } else {
        false
    }
}

/// Whether the registers hold a well-formed command: a known function identifier whose
/// enumerated arguments have known values.
pub open spec fn rec_call_valid(regs: Seq<u64>) -> bool {
    let id = regs[0];
    if id == ATTEST_GET_REALM_KEY {
        regs[3] == 0
    } else if id == EL3_TOKEN_SIGN {
        token_sign_opcode(regs[1]) is Ok && regs[4] == 0
    } else if id == MEC_REFRESH {
        mec_refresh_reason(regs[2]) is Ok
    } else {
        id == RMI_REQ_COMPLETE || id == GTSI_DELEGATE || id == GTSI_UNDELEGATE || id
            == ATTEST_GET_PLAT_TOKEN || id == EL3_FEATURES || id == IDE_KEY_PROG || id
            == IDE_KEY_SET_GO || id == IDE_KEY_SET_STOP || id == IDE_KM_PULL_RESPONSE || id
            == RESERVE_MEMORY
    }
}

impl RecCall {
    /// Decodes a command from its argument registers. Unknown function identifiers and unknown
    /// values of enumerated arguments are malformed.
    pub fn from_regs(regs: &[u64]) -> (r: Result<Self, Error>)
        requires
            regs@.len() >= 1,
            regs@.len() >= rec_call_regs_needed(regs@[0]),
        ensures
            r matches Ok(call) ==> rec_call_decodes(regs@, call),
            r is Err <==> !rec_call_valid(regs@),
    {
        let id = regs[0];
        if id == RMI_REQ_COMPLETE {
            let a: [u64; 6] = [regs[1], regs[2], regs[3], regs[4], regs[5], regs[6]];
            assert(a@ =~= regs@.subrange(1, 7));
            let call = RecCall::RmiReqComplete { regs: a };
            Ok(call)
        } else if id == GTSI_DELEGATE {
            Ok(RecCall::GtsiDelegate { base_pa: regs[1] })
        } else if id == GTSI_UNDELEGATE {
            Ok(RecCall::GtsiUndelegate { base_pa: regs[1] })
        } else if id == ATTEST_GET_REALM_KEY {
            match EccCurve::try_from_u64(regs[3]) {
                Ok(ecc_curve) => Ok(RecCall::AttestGetRealmKey { buf_pa: regs[1], buf_size: regs[2], ecc_curve }),
                Err(e) => {
                    Err(e)
                },
            }
        } else if id == ATTEST_GET_PLAT_TOKEN {
            Ok(RecCall::AttestGetPlatToken { buf_pa: regs[1], buf_size: regs[2], c_size: regs[3] })
        } else if id == EL3_FEATURES {
            Ok(RecCall::El3Features { feat_reg_idx: regs[1] })
        } else if id == EL3_TOKEN_SIGN {
            let opcode = match El3TokenSignOpcode::try_from_u64(regs[1]) {
                Ok(o) => o,
                Err(e) => {
                    return Err(e);
                },
            };
            match EccCurve::try_from_u64(regs[4]) {
                Ok(ecc_curve) => Ok(RecCall::El3TokenSign { opcode, buf_pa: regs[2], buf_size: regs[3], ecc_curve }),
                Err(e) => {
                    Err(e)
                },
            }
        } else if id == MEC_REFRESH {
            let x1 = regs[1];
            assert((x1 as u16) == x1 % 0x1_0000) by (bit_vector);
            match MecRefreshReason::try_from_u64(regs[2]) {
                Ok(reason) => Ok(RecCall::MecRefresh { mecid: regs[1] as u16, reason }),
                Err(e) => {
                    Err(e)
                },
            }
        } else if id == IDE_KEY_PROG {
            let keq_qw: [u64; 4] = [regs[4], regs[5], regs[6], regs[7]];
            let ifv_qw: [u64; 2] = [regs[8], regs[9]];
            assert(keq_qw@ =~= regs@.subrange(4, 8));
            assert(ifv_qw@ =~= regs@.subrange(8, 10));
            Ok(
                RecCall::IdeKeyProg {
                    ecam_address: regs[1],
                    rp_id: regs[2],
                    stream: StreamSelector::from_reg(regs[3]),
                    keq_qw,
                    ifv_qw,
                    request_id: regs[10],
                    cookie: regs[12],
                },
            )
        } else if id == IDE_KEY_SET_GO {
            Ok(
                RecCall::IdeKeySetGo {
                    ecam_address: regs[1],
                    rp_id: regs[2],
                    stream: StreamSelector::from_reg(regs[3]),
                    request_id: regs[4],
                    cookie: regs[5],
                },
            )
        } else if id == IDE_KEY_SET_STOP {
            Ok(
                RecCall::IdeKeySetStop {
                    ecam_address: regs[1],
                    rp_id: regs[2],
                    stream: StreamSelector::from_reg(regs[3]),
                    request_id: regs[4],
                    cookie: regs[5],
                },
            )
        } else if id == IDE_KM_PULL_RESPONSE {
            Ok(RecCall::IdeKmPullResponse { ecam_address: regs[1], rp_id: regs[2] })
        } else if id == RESERVE_MEMORY {
            let x2 = regs[2];
            assert(((x2 >> 56u64) as u8) == (x2 >> 56u64)) by (bit_vector);
            Ok(
                RecCall::ReserveMemory {
                    size: regs[1],
                    alignment: (regs[2] >> 56u64) as u8,
                    local_cpu: regs[3] & 1 == 1,
                },
            )
        } else {
            Err(Error::MalformedCommand)
        }
    }
}

/// A response to an RMM command, written to the return registers.
pub trait ToSmcReturn {
    /// The registers that the response writes, from x0 on.
    spec fn spec_regs(&self) -> Seq<u64>;

    /// Writes the response to the first registers of `regs`, leaving the others unchanged.
    fn to_regs(&self, regs: &mut [u64])
        requires
            old(regs)@.len() >= 4,
        ensures
            self.spec_regs().len() <= 4,
            final(regs)@ == self.spec_regs() + old(regs)@.subrange(
                self.spec_regs().len() as int,
                old(regs)@.len() as int,
            ),
    ;
}

/// The 18 return registers of a response, with zeros after the registers it writes.
pub open spec fn response_regs(written: Seq<u64>) -> Seq<u64> {
    written + Seq::new((18 - written.len()) as nat, |i: int| 0u64)
}

/// Returns the registers of a response to the RMM, which resumes the Realm world.
pub fn realm_response<R: ToSmcReturn>(value: &R) -> (r: (SmcReturn, World))
    ensures
        r.0.wf(),
        r.0@ == response_regs(value.spec_regs()),
        r.1 == World::Realm,
{
    let mut regs: [u64; 18] = vstd::array::array_fill_for_copy_types(0u64);
    value.to_regs(&mut regs);
    let out = SmcReturn::from_slice(&regs);
    assert(out@ =~= response_regs(value.spec_regs()));
    (out, World::Realm)
}

impl ToSmcReturn for RecCommandReturnCode {
    open spec fn spec_regs(&self) -> Seq<u64> {
        seq![return_code_value(*self)]
    }

    fn to_regs(&self, regs: &mut [u64]) {
        regs[0] = self.value();
        assert(regs@ =~= self.spec_regs() + old(regs)@.subrange(1, old(regs)@.len() as int));
    }
}

/// A response that carries no value.
pub struct RecEmptyResponse;

impl ToSmcReturn for RecEmptyResponse {
    open spec fn spec_regs(&self) -> Seq<u64> {
        seq![0u64]
    }

    fn to_regs(&self, regs: &mut [u64]) {
        regs[0] = 0;
        assert(regs@ =~= self.spec_regs() + old(regs)@.subrange(1, old(regs)@.len() as int));
    }
}

/// The response to ATTEST_GET_REALM_KEY.
#[derive(Debug, Clone, PartialEq, Eq, Structural)]
pub struct RecAttestGetRealmKeyResponse {
    /// Size in bytes of the key written to the buffer.
    pub key_size: u64,
}

impl ToSmcReturn for RecAttestGetRealmKeyResponse {
    open spec fn spec_regs(&self) -> Seq<u64> {
        seq![0u64, self.key_size]
    }

    fn to_regs(&self, regs: &mut [u64]) {
        regs[0] = 0;
        regs[1] = self.key_size;
        assert(regs@ =~= self.spec_regs() + old(regs)@.subrange(2, old(regs)@.len() as int));
    }
}

/// The response to ATTEST_GET_PLAT_TOKEN.
#[derive(Debug, Clone, PartialEq, Eq, Structural)]
pub struct RecAttestGetPlatTokenResponse {
    /// Size in bytes of the part of the token written to the buffer.
    pub token_hunk_size: u64,
    /// Size in bytes of the rest of the token.
    pub remaining_size: u64,
}

impl ToSmcReturn for RecAttestGetPlatTokenResponse {
    open spec fn spec_regs(&self) -> Seq<u64> {
        seq![0u64, self.token_hunk_size, self.remaining_size]
    }

    fn to_regs(&self, regs: &mut [u64]) {
        regs[0] = 0;
        regs[1] = self.token_hunk_size;
        regs[2] = self.remaining_size;
        assert(regs@ =~= self.spec_regs() + old(regs)@.subrange(3, old(regs)@.len() as int));
    }
}

/// The response to EL3_FEATURES.
#[derive(Debug, Clone, PartialEq, Eq, Structural)]
pub struct RecEl3FeaturesResponse {
    /// The value of the feature register.
    pub feat_reg: u64,
}

impl ToSmcReturn for RecEl3FeaturesResponse {
    open spec fn spec_regs(&self) -> Seq<u64> {
        seq![0u64, self.feat_reg]
    }

    fn to_regs(&self, regs: &mut [u64]) {
        regs[0] = 0;
        regs[1] = self.feat_reg;
        assert(regs@ =~= self.spec_regs() + old(regs)@.subrange(2, old(regs)@.len() as int));
    }
}

/// The response to EL3_TOKEN_SIGN with the GET_RAK operation.
#[derive(Debug, Clone, PartialEq, Eq, Structural)]
pub struct RecEl3TokenSignGetRakResponse {
    /// Size in bytes of the key.
    pub key_size: u64,
}

impl ToSmcReturn for RecEl3TokenSignGetRakResponse {
    open spec fn spec_regs(&self) -> Seq<u64> {
        seq![0u64, self.key_size]
    }

    fn to_regs(&self, regs: &mut [u64]) {
        regs[0] = 0;
        regs[1] = self.key_size;
        assert(regs@ =~= self.spec_regs() + old(regs)@.subrange(2, old(regs)@.len() as int));
    }
}

/// The response to IDE_KM_PULL_RESPONSE.
#[derive(Debug, Clone, PartialEq, Eq, Structural)]
pub struct RecIdeKmPullResponse {
    /// The result of the previous request.
    pub previous: RecCommandReturnCode,
    /// First response value.
    pub r1: u64,
    /// Second response value.
    pub r2: u64,
}

impl ToSmcReturn for RecIdeKmPullResponse {
    open spec fn spec_regs(&self) -> Seq<u64> {
        seq![0u64, return_code_value(self.previous), self.r1, self.r2]
    }

    fn to_regs(&self, regs: &mut [u64]) {
        regs[0] = 0;
        regs[1] = self.previous.value();
        regs[2] = self.r1;
        regs[3] = self.r2;
        assert(regs@ =~= self.spec_regs() + old(regs)@.subrange(4, old(regs)@.len() as int));
    }
}

/// The response to RESERVE_MEMORY.
#[derive(Debug, Clone, PartialEq, Eq, Structural)]
pub struct RecReserveMemoryResponse {
    /// The address of the reserved memory.
    pub address: u64,
}

impl ToSmcReturn for RecReserveMemoryResponse {
    open spec fn spec_regs(&self) -> Seq<u64> {
        seq![0u64, self.address]
    }

    fn to_regs(&self, regs: &mut [u64]) {
        regs[0] = 0;
        regs[1] = self.address;
        assert(regs@ =~= self.spec_regs() + old(regs)@.subrange(2, old(regs)@.len() as int));
    }
}

} // verus!
