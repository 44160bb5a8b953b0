//! Arm Firmware Framework for A-profile (FF-A), as far as the dispatcher between the normal world
//! and the Secure Partition Manager reads and writes it: the function identifiers of the FF-A
//! interfaces, the fields of a call that decide its routing, and the register layout of the
//! messages that the dispatcher sends. Decoding and encoding are done by the `arm_ffa` crate.

pub mod spmd;

use arm_ffa::interface_args::{
    DirectMsgArgs, SecondaryEpRegisterAddr, SuccessArgsIdGet, SuccessArgsSpmIdGet, TargetInfo,
    WarmBootType,
};
use arm_ffa::{Error, Interface, Version, VersionOut};
use vstd::prelude::*;

verus! {

/// An FF-A version number.
#[derive(Clone, Copy, Debug, Eq, PartialEq, Structural)]
pub struct FfaVersion {
    /// The major version.
    pub major: u16,
    /// The minor version.
    pub minor: u16,
}

impl FfaVersion {
    /// Versions are ordered by major, then minor version.
    pub open spec fn spec_le(self, other: FfaVersion) -> bool {
        self.major < other.major || (self.major == other.major && self.minor <= other.minor)
    }

    /// The register encoding of the version: the major version in bits 30-16, the minor in
    /// bits 15-0.
    pub open spec fn spec_value(self) -> u64 {
        (self.major as u64 * 0x1_0000 + self.minor as u64) as u64
    }

    /// The smaller of the two versions.
    pub fn min(self, other: FfaVersion) -> (r: FfaVersion)
        ensures
            r == (if self.spec_le(other) { self } else { other }),
    {
        if self.major < other.major || (self.major == other.major && self.minor <= other.minor) {
            self
        } else {
            other
        }
    }

    /// Whether the caller's version (`self`) is compatible with the callee's version: the same
    /// major version, and a minor version that is not higher.
    pub fn is_compatible_to(&self, callee_version: &FfaVersion) -> (r: bool)
        ensures
            r == (self.major == callee_version.major && self.minor <= callee_version.minor),
    {
        self.major == callee_version.major && self.minor <= callee_version.minor
    }
}

/// Whether the `arm_ffa` crate decodes and encodes every message at this version without
/// failing an assertion: the version is at least 1.2.
pub open spec fn version_supported(v: FfaVersion) -> bool {
    v.major > 1 || (v.major == 1 && v.minor >= 2)
}

/// The version that a 32-bit register value encodes.
pub open spec fn version_of(value: u32) -> FfaVersion {
    FfaVersion { major: (value >> 16u32) as u16, minor: value as u16 }
}

/// Error status codes of the `FFA_ERROR` interface.
#[derive(Clone, Copy, Debug, Eq, PartialEq, Structural)]
pub enum FfaError {
    /// The call is not supported.
    NotSupported,
    /// A parameter is invalid.
    InvalidParameters,
    /// Not enough memory.
    NoMemory,
    /// The callee is busy.
    Busy,
    /// The call was interrupted.
    Interrupted,
    /// The call was denied.
    Denied,
    /// The call should be retried.
    Retry,
    /// The call was aborted.
    Aborted,
    /// There is no data.
    NoData,
}

impl FfaError {
    /// The status code of the error.
    pub open spec fn spec_code(self) -> i32 {
        match self {
            FfaError::NotSupported => -1i32,
            FfaError::InvalidParameters => -2i32,
            FfaError::NoMemory => -3i32,
            FfaError::Busy => -4i32,
            FfaError::Interrupted => -5i32,
            FfaError::Denied => -6i32,
            FfaError::Retry => -7i32,
            FfaError::Aborted => -8i32,
            FfaError::NoData => -9i32,
        }
    }

    /// Returns the status code of the error.
    pub fn code(self) -> (r: i32)
        ensures
            r == self.spec_code(),
    {
        match self {
            FfaError::NotSupported => -1,
            FfaError::InvalidParameters => -2,
            FfaError::NoMemory => -3,
            FfaError::Busy => -4,
            FfaError::Interrupted => -5,
            FfaError::Denied => -6,
            FfaError::Retry => -7,
            FfaError::Aborted => -8,
            FfaError::NoData => -9,
        }
    }

    /// The error with the given status code (-1 to -9).
    pub open spec fn spec_from_code(code: i32) -> FfaError {
        if code == -1 {
            FfaError::NotSupported
        } else if code == -2 {
            FfaError::InvalidParameters
        } else if code == -3 {
            FfaError::NoMemory
        } else if code == -4 {
            FfaError::Busy
        } else if code == -5 {
            FfaError::Interrupted
        } else if code == -6 {
            FfaError::Denied
        } else if code == -7 {
            FfaError::Retry
        } else if code == -8 {
            FfaError::Aborted
        } else {
            FfaError::NoData
        }
    }

    /// Returns the error with the given status code.
    pub fn from_code(code: i32) -> (r: FfaError)
        requires
            -9 <= code <= -1,
        ensures
            r == Self::spec_from_code(code),
            r.spec_code() == code,
    {
        if code == -1 {
            FfaError::NotSupported
        } else if code == -2 {
            FfaError::InvalidParameters
        } else if code == -3 {
            FfaError::NoMemory
        } else if code == -4 {
            FfaError::Busy
        } else if code == -5 {
            FfaError::Interrupted
        } else if code == -6 {
            FfaError::Denied
        } else if code == -7 {
            FfaError::Retry
        } else if code == -8 {
            FfaError::Aborted
        } else {
            FfaError::NoData
        }
    }
}

/// The FF-A interfaces, as the dispatcher tells them apart. Both the 32-bit and the 64-bit
/// function identifier of an interface give the same kind.
#[derive(Clone, Copy, Debug, Eq, PartialEq, Structural)]
pub enum FfaKind {
    Error,
    Success,
    Interrupt,
    Version,
    Features,
    RxAcquire,
    RxRelease,
    RxTxMap,
    RxTxUnmap,
    PartitionInfoGet,
    PartitionInfoGetRegs,
    IdGet,
    SpmIdGet,
    MsgWait,
    Yield,
    Run,
    NormalWorldResume,
    SecondaryEpRegister,
    MsgSend2,
    MsgSendDirectReq,
    MsgSendDirectResp,
    MsgSendDirectReq2,
    MsgSendDirectResp2,
    MemDonate,
    MemLend,
    MemShare,
    MemRetrieveReq,
    MemRetrieveResp,
    MemReclaim,
    MemOpPause,
    MemOpResume,
    MemFragRx,
    MemFragTx,
    NotificationBitmapCreate,
    NotificationBitmapDestroy,
    NotificationBind,
    NotificationUnbind,
    NotificationSet,
    NotificationGet,
    NotificationInfoGet,
    /// Any other function identifier.
    Other,
}

/// `FFA_ERROR` (32-bit).
pub const FFA_ERROR_32: u32 = 0x8400_0060;
/// `FFA_SUCCESS` (32-bit).
pub const FFA_SUCCESS_32: u32 = 0x8400_0061;
/// `FFA_INTERRUPT` (32-bit).
pub const FFA_INTERRUPT_32: u32 = 0x8400_0062;
/// `FFA_VERSION`.
pub const FFA_VERSION: u32 = 0x8400_0063;
/// `FFA_MSG_SEND_DIRECT_REQ` (32-bit).
pub const FFA_MSG_SEND_DIRECT_REQ_32: u32 = 0x8400_006F;
/// `FFA_MSG_SEND_DIRECT_REQ` (64-bit).
pub const FFA_MSG_SEND_DIRECT_REQ_64: u32 = 0xC400_006F;
/// `FFA_MSG_SEND_DIRECT_RESP` (32-bit).
pub const FFA_MSG_SEND_DIRECT_RESP_32: u32 = 0x8400_0070;
/// `FFA_SECONDARY_EP_REGISTER` (32-bit).
pub const FFA_SECONDARY_EP_REGISTER_32: u32 = 0x8400_0087;
/// `FFA_SECONDARY_EP_REGISTER` (64-bit).
pub const FFA_SECONDARY_EP_REGISTER_64: u32 = 0xC400_0087;

/// Framework message of a direct request: forwarded `FFA_VERSION`.
pub const FWK_VERSION_REQ: u32 = 0x8000_0008;
/// Framework message of a direct response: answer to a forwarded `FFA_VERSION`.
pub const FWK_VERSION_RESP: u32 = 0x8000_0009;
/// Framework message of a direct request: PSCI power management request.
pub const FWK_POWER_PSCI_REQ: u32 = 0x8000_0000;
/// Framework message of a direct request: warm boot.
pub const FWK_POWER_WARM_BOOT_REQ: u32 = 0x8000_0001;
/// Framework message of a direct response: PSCI power management response.
pub const FWK_POWER_PSCI_RESP: u32 = 0x8000_0002;

/// The interface of a function identifier.
pub open spec fn spec_ffa_kind(fid: u32) -> FfaKind {
    match fid {
        0x8400_0060u32 | 0xC400_0060u32 => FfaKind::Error,
        0x8400_0061u32 | 0xC400_0061u32 => FfaKind::Success,
        0x8400_0062u32 | 0xC400_0062u32 => FfaKind::Interrupt,
        0x8400_0063u32 => FfaKind::Version,
        0x8400_0064u32 => FfaKind::Features,
        0x8400_0084u32 => FfaKind::RxAcquire,
        0x8400_0065u32 => FfaKind::RxRelease,
        0x8400_0066u32 | 0xC400_0066u32 => FfaKind::RxTxMap,
        0x8400_0067u32 => FfaKind::RxTxUnmap,
        0x8400_0068u32 => FfaKind::PartitionInfoGet,
        0xC400_008Bu32 => FfaKind::PartitionInfoGetRegs,
        0x8400_0069u32 => FfaKind::IdGet,
        0x8400_0085u32 => FfaKind::SpmIdGet,
        0x8400_006Bu32 | 0xC400_006Bu32 => FfaKind::MsgWait,
        0x8400_006Cu32 | 0xC400_006Cu32 => FfaKind::Yield,
        0x8400_006Du32 | 0xC400_006Du32 => FfaKind::Run,
        0x8400_007Cu32 | 0xC400_007Cu32 => FfaKind::NormalWorldResume,
        0x8400_0087u32 | 0xC400_0087u32 => FfaKind::SecondaryEpRegister,
        0x8400_0086u32 => FfaKind::MsgSend2,
        0x8400_006Fu32 | 0xC400_006Fu32 => FfaKind::MsgSendDirectReq,
        0x8400_0070u32 | 0xC400_0070u32 => FfaKind::MsgSendDirectResp,
        0xC400_008Du32 => FfaKind::MsgSendDirectReq2,
        0xC400_008Eu32 => FfaKind::MsgSendDirectResp2,
        0x8400_0071u32 | 0xC400_0071u32 => FfaKind::MemDonate,
        0x8400_0072u32 | 0xC400_0072u32 => FfaKind::MemLend,
        0x8400_0073u32 | 0xC400_0073u32 => FfaKind::MemShare,
        0x8400_0074u32 | 0xC400_0074u32 => FfaKind::MemRetrieveReq,
        0x8400_0075u32 => FfaKind::MemRetrieveResp,
        0x8400_0077u32 => FfaKind::MemReclaim,
        0x8400_0078u32 => FfaKind::MemOpPause,
        0x8400_0079u32 => FfaKind::MemOpResume,
        0x8400_007Au32 => FfaKind::MemFragRx,
        0x8400_007Bu32 => FfaKind::MemFragTx,
        0x8400_007Du32 => FfaKind::NotificationBitmapCreate,
        0x8400_007Eu32 => FfaKind::NotificationBitmapDestroy,
        0x8400_007Fu32 => FfaKind::NotificationBind,
        0x8400_0080u32 => FfaKind::NotificationUnbind,
        0x8400_0081u32 => FfaKind::NotificationSet,
        0x8400_0082u32 => FfaKind::NotificationGet,
        0x8400_0083u32 | 0xC400_0083u32 => FfaKind::NotificationInfoGet,
        _ => FfaKind::Other,
    }
}

/// Returns the interface of a function identifier.
pub fn ffa_kind(fid: u32) -> (r: FfaKind)
    ensures
        r == spec_ffa_kind(fid),
{
    match fid {
        0x8400_0060u32 | 0xC400_0060u32 => FfaKind::Error,
        0x8400_0061u32 | 0xC400_0061u32 => FfaKind::Success,
        0x8400_0062u32 | 0xC400_0062u32 => FfaKind::Interrupt,
        0x8400_0063u32 => FfaKind::Version,
        0x8400_0064u32 => FfaKind::Features,
        0x8400_0084u32 => FfaKind::RxAcquire,
        0x8400_0065u32 => FfaKind::RxRelease,
        0x8400_0066u32 | 0xC400_0066u32 => FfaKind::RxTxMap,
        0x8400_0067u32 => FfaKind::RxTxUnmap,
        0x8400_0068u32 => FfaKind::PartitionInfoGet,
        0xC400_008Bu32 => FfaKind::PartitionInfoGetRegs,
        0x8400_0069u32 => FfaKind::IdGet,
        0x8400_0085u32 => FfaKind::SpmIdGet,
        0x8400_006Bu32 | 0xC400_006Bu32 => FfaKind::MsgWait,
        0x8400_006Cu32 | 0xC400_006Cu32 => FfaKind::Yield,
        0x8400_006Du32 | 0xC400_006Du32 => FfaKind::Run,
        0x8400_007Cu32 | 0xC400_007Cu32 => FfaKind::NormalWorldResume,
        0x8400_0087u32 | 0xC400_0087u32 => FfaKind::SecondaryEpRegister,
        0x8400_0086u32 => FfaKind::MsgSend2,
        0x8400_006Fu32 | 0xC400_006Fu32 => FfaKind::MsgSendDirectReq,
        0x8400_0070u32 | 0xC400_0070u32 => FfaKind::MsgSendDirectResp,
        0xC400_008Du32 => FfaKind::MsgSendDirectReq2,
        0xC400_008Eu32 => FfaKind::MsgSendDirectResp2,
        0x8400_0071u32 | 0xC400_0071u32 => FfaKind::MemDonate,
        0x8400_0072u32 | 0xC400_0072u32 => FfaKind::MemLend,
        0x8400_0073u32 | 0xC400_0073u32 => FfaKind::MemShare,
        0x8400_0074u32 | 0xC400_0074u32 => FfaKind::MemRetrieveReq,
        0x8400_0075u32 => FfaKind::MemRetrieveResp,
        0x8400_0077u32 => FfaKind::MemReclaim,
        0x8400_0078u32 => FfaKind::MemOpPause,
        0x8400_0079u32 => FfaKind::MemOpResume,
        0x8400_007Au32 => FfaKind::MemFragRx,
        0x8400_007Bu32 => FfaKind::MemFragTx,
        0x8400_007Du32 => FfaKind::NotificationBitmapCreate,
        0x8400_007Eu32 => FfaKind::NotificationBitmapDestroy,
        0x8400_007Fu32 => FfaKind::NotificationBind,
        0x8400_0080u32 => FfaKind::NotificationUnbind,
        0x8400_0081u32 => FfaKind::NotificationSet,
        0x8400_0082u32 => FfaKind::NotificationGet,
        0x8400_0083u32 | 0xC400_0083u32 => FfaKind::NotificationInfoGet,
        _ => FfaKind::Other,
    }
}

/// Whether the interface is a direct message request or response, of either version.
pub open spec fn is_direct_message(kind: FfaKind) -> bool {
    kind == FfaKind::MsgSendDirectReq || kind == FfaKind::MsgSendDirectResp
        || kind == FfaKind::MsgSendDirectReq2 || kind == FfaKind::MsgSendDirectResp2
}

/// Why registers do not decode to an FF-A message.
#[derive(Clone, Copy, Debug, Eq, PartialEq, Structural)]
pub enum FfaParseError {
    /// A version field is malformed (its bit 31 is set).
    InvalidVersion,
    /// A memory management, notification or partition info field is malformed.
    Descriptor,
    /// Any other decoding error, with the FF-A status code that it converts to.
    Code(i32),
}

/// What `arm_ffa::Interface::from_regs` gives for the registers at the FF-A version: `None`
/// when they decode to a message, else why they do not.
pub uninterp spec fn ffa_parse_result(version: FfaVersion, regs: Seq<u64>) -> Option<FfaParseError>;

/// Whether the registers decode to an FF-A message at the version.
pub open spec fn ffa_decodes(version: FfaVersion, regs: Seq<u64>) -> bool {
    ffa_parse_result(version, regs) is None
}

/// Checks whether the registers decode to an FF-A message with
/// `arm_ffa::Interface::from_regs`. The result is named; of an error the contract only says that
/// its status code is one of the FF-A error codes, which is the range of
/// `From<arm_ffa::Error> for arm_ffa::FfaError`. That conversion does not terminate for the
/// memory management, notification and partition info errors (it calls itself), so those are
/// reported as `Descriptor` without converting them.
#[verifier::external_body]
fn ffa_parse_error(version: FfaVersion, regs: &[u64; 18]) -> (r: Option<FfaParseError>)
    requires
        version_supported(version),
    ensures
        r == ffa_parse_result(version, regs@),
        r matches Some(FfaParseError::Code(c)) ==> -9 <= c <= -1,
{
    match Interface::from_regs(Version(version.major, version.minor), regs) {
        Ok(_) => None,
        Err(Error::InvalidVersion(_)) => Some(FfaParseError::InvalidVersion),
        Err(Error::MemoryManagementError(_) | Error::NotificationError(_)
        | Error::PartitionInfoError(_)) => Some(FfaParseError::Descriptor),
        Err(e) => Some(FfaParseError::Code(i32::from(arm_ffa::FfaError::from(e)))),
    }
}

/// The arguments of a direct response that the dispatcher reads.
#[derive(Clone, Copy, Debug, Eq, PartialEq, Structural)]
pub enum DirectResponse {
    /// The answer to a forwarded `FFA_VERSION`: the version, or `None` for NOT_SUPPORTED.
    Version(Option<FfaVersion>),
    /// The answer to a PSCI request: its PSCI status.
    PowerPsci(i32),
    /// Any other arguments.
    Other,
}

/// The fields of a decoded FF-A call that decide its routing.
#[derive(Clone, Copy, Debug)]
pub struct FfaFields {
    /// The source and destination endpoint IDs of a direct message.
    pub endpoints: Option<(u16, u16)>,
    /// The sender endpoint ID of `FFA_MSG_SEND2`.
    pub sender: Option<u16>,
    /// The input version of `FFA_VERSION`.
    pub input_version: Option<FfaVersion>,
    /// The entry point of `FFA_SECONDARY_EP_REGISTER`.
    pub entrypoint: Option<u64>,
    /// The framework message arguments of a direct response.
    pub response: DirectResponse,
}

/// The endpoint IDs of a direct message: w1 holds the source in bits 31-16 and the destination
/// in bits 15-0.
pub open spec fn spec_endpoints(regs: Seq<u64>) -> Option<(u16, u16)> {
    if is_direct_message(spec_ffa_kind(regs[0] as u32)) {
        Some((((regs[1] >> 16u64) as u16), (regs[1] as u16)))
    } else {
        None
    }
}

/// The sender of `FFA_MSG_SEND2`, in bits 31-16 of w1.
pub open spec fn spec_sender(regs: Seq<u64>) -> Option<u16> {
    if spec_ffa_kind(regs[0] as u32) == FfaKind::MsgSend2 {
        Some((regs[1] >> 16u64) as u16)
    } else {
        None
    }
}

/// The input version of `FFA_VERSION`, in w1.
pub open spec fn spec_input_version(regs: Seq<u64>) -> Option<FfaVersion> {
    if spec_ffa_kind(regs[0] as u32) == FfaKind::Version {
        Some(version_of(regs[1] as u32))
    } else {
        None
    }
}

/// The entry point of `FFA_SECONDARY_EP_REGISTER`: w1 of the 32-bit call, x1 of the 64-bit call.
pub open spec fn spec_entrypoint(regs: Seq<u64>) -> Option<u64> {
    if regs[0] as u32 == FFA_SECONDARY_EP_REGISTER_32 {
        Some((regs[1] as u32) as u64)
    } else if regs[0] as u32 == FFA_SECONDARY_EP_REGISTER_64 {
        Some(regs[1])
    } else {
        None
    }
}

/// The framework message arguments of a 32-bit direct response: w2 names the message, w3 holds
/// its value (a version, or -1 for NOT_SUPPORTED; a PSCI status).
pub open spec fn spec_response(regs: Seq<u64>) -> DirectResponse {
    if regs[0] as u32 != FFA_MSG_SEND_DIRECT_RESP_32 {
        DirectResponse::Other
    } else if regs[2] as u32 == FWK_VERSION_RESP {
        if regs[3] as i32 == -1 {
            DirectResponse::Version(None)
        } else {
            DirectResponse::Version(Some(version_of(regs[3] as u32)))
        }
    } else if regs[2] as u32 == FWK_POWER_PSCI_RESP {
        DirectResponse::PowerPsci(regs[3] as i32)
    } else {
        DirectResponse::Other
    }
}

/// No fields.
pub open spec fn no_fields() -> FfaFields {
    FfaFields {
        endpoints: None,
        sender: None,
        input_version: None,
        entrypoint: None,
        response: DirectResponse::Other,
    }
}

/// The routing fields of the call in the registers, if they decode at the version.
pub open spec fn spec_fields(version: FfaVersion, regs: Seq<u64>) -> FfaFields {
    if ffa_decodes(version, regs) {
        FfaFields {
            endpoints: spec_endpoints(regs),
            sender: spec_sender(regs),
            input_version: spec_input_version(regs),
            entrypoint: spec_entrypoint(regs),
            response: spec_response(regs),
        }
    } else {
        no_fields()
    }
}

/// Reads the endpoint IDs of a direct message and the sender of `FFA_MSG_SEND2` from the message
/// that `arm_ffa::Interface::from_regs` decodes, which takes them from w1.
#[verifier::external_body]
fn ffa_endpoints(version: FfaVersion, regs: &[u64; 18]) -> (r: (Option<(u16, u16)>, Option<u16>))
    requires
        version_supported(version),
    ensures
        r == (spec_fields(version, regs@).endpoints, spec_fields(version, regs@).sender),
{
    match Interface::from_regs(Version(version.major, version.minor), regs) {
        Ok(Interface::MsgSendDirectReq { src_id, dst_id, .. }
        | Interface::MsgSendDirectResp { src_id, dst_id, .. }
        | Interface::MsgSendDirectReq2 { src_id, dst_id, .. }
        | Interface::MsgSendDirectResp2 { src_id, dst_id, .. }) => (Some((src_id, dst_id)), None),
        Ok(Interface::MsgSend2 { sender_vm_id, .. }) => (None, Some(sender_vm_id)),
        _ => (None, None),
    }
}

/// Reads the input version of `FFA_VERSION` and the entry point of `FFA_SECONDARY_EP_REGISTER`
/// from the message that `arm_ffa::Interface::from_regs` decodes. A decoded version has bit 31
/// clear.
#[verifier::external_body]
fn ffa_version_and_entrypoint(version: FfaVersion, regs: &[u64; 18]) -> (r: (Option<FfaVersion>, Option<u64>))
    requires
        version_supported(version),
    ensures
        r == (spec_fields(version, regs@).input_version, spec_fields(version, regs@).entrypoint),
        r.0 matches Some(v) ==> v.major < 0x8000,
{
    match Interface::from_regs(Version(version.major, version.minor), regs) {
        Ok(Interface::Version { input_version: v, .. }) => (Some(FfaVersion { major: v.0, minor: v.1 }), None),
        Ok(Interface::SecondaryEpRegister { entrypoint: SecondaryEpRegisterAddr::Addr32(a) }) => (None, Some(a as u64)),
        Ok(Interface::SecondaryEpRegister { entrypoint: SecondaryEpRegisterAddr::Addr64(a) }) => (None, Some(a)),
        _ => (None, None),
    }
}

/// Reads the framework message arguments of a direct response from the message that
/// `arm_ffa::Interface::from_regs` decodes. A decoded version has bit 31 clear.
#[verifier::external_body]
fn ffa_direct_response(version: FfaVersion, regs: &[u64; 18]) -> (r: DirectResponse)
    requires
        version_supported(version),
    ensures
        r == spec_fields(version, regs@).response,
        r matches DirectResponse::Version(Some(v)) ==> v.major < 0x8000,
{
    let v = Version(version.major, version.minor);
    match Interface::from_regs(v, regs) {
        Ok(Interface::MsgSendDirectResp { args: DirectMsgArgs::VersionResp { version: Some(o) }, .. }) =>
            DirectResponse::Version(Some(FfaVersion { major: o.0, minor: o.1 })),
        Ok(Interface::MsgSendDirectResp { args: DirectMsgArgs::VersionResp { version: None }, .. }) =>
            DirectResponse::Version(None),
        Ok(Interface::MsgSendDirectResp { args: DirectMsgArgs::PowerPsciResp { psci_status }, .. }) =>
            DirectResponse::PowerPsci(psci_status),
        _ => DirectResponse::Other,
    }
}

/// An FF-A call as the dispatcher routes it: its interface and its routing fields.
#[derive(Clone, Copy, Debug)]
pub struct FfaCall {
    /// The interface, from the function identifier.
    pub kind: FfaKind,
    /// The routing fields.
    pub fields: FfaFields,
}

impl FfaCall {
    /// The fields that the interface has are present.
    pub open spec fn wf(self) -> bool {
        &&& is_direct_message(self.kind) ==> self.fields.endpoints is Some
        &&& self.kind == FfaKind::MsgSend2 ==> self.fields.sender is Some
        &&& self.kind == FfaKind::Version ==> self.fields.input_version is Some
        &&& self.kind == FfaKind::SecondaryEpRegister ==> self.fields.entrypoint is Some
    }
}

/// The call in registers that decode at the version.
pub open spec fn spec_call(version: FfaVersion, regs: Seq<u64>) -> FfaCall {
    FfaCall { kind: spec_ffa_kind(regs[0] as u32), fields: spec_fields(version, regs) }
}

/// Decodes the registers at the version: the call, or why they do not decode.
pub fn decode_call(version: FfaVersion, regs: &[u64; 18]) -> (r: Result<FfaCall, FfaParseError>)
    requires
        version_supported(version),
    ensures
        match ffa_parse_result(version, regs@) {
            Some(e) => r == Err::<FfaCall, FfaParseError>(e),
            None => r == Ok::<FfaCall, FfaParseError>(spec_call(version, regs@)),
        },
        r matches Ok(call) ==> call.wf(),
        r matches Ok(call) ==> (call.fields.input_version matches Some(v) ==> v.major < 0x8000),
        r matches Ok(call) ==> (call.fields.response matches DirectResponse::Version(Some(v)) ==> v.major < 0x8000),
        r matches Err(FfaParseError::Code(c)) ==> -9 <= c <= -1,
{
    match ffa_parse_error(version, regs) {
        Some(e) => Err(e),
        None => {
            let (endpoints, sender) = ffa_endpoints(version, regs);
            let (input_version, entrypoint) = ffa_version_and_entrypoint(version, regs);
            let response = ffa_direct_response(version, regs);
            let kind = ffa_kind(regs[0] as u32);
            Ok(FfaCall { kind, fields: FfaFields { endpoints, sender, input_version, entrypoint, response } })
        },
    }
}

/// A message that the dispatcher writes to the registers of the world that runs next.
#[derive(Clone, Copy, Debug)]
pub enum FfaOut {
    /// 32-bit `FFA_ERROR` with the error code.
    Error(FfaError),
    /// The answer to `FFA_VERSION`: the version, or `None` for NOT_SUPPORTED.
    VersionOut(Option<FfaVersion>),
    /// 32-bit `FFA_SUCCESS` answering `FFA_ID_GET` with the ID.
    IdGetSuccess(u16),
    /// 32-bit `FFA_SUCCESS` answering `FFA_SPM_ID_GET` with the ID.
    SpmIdGetSuccess(u16),
    /// 32-bit `FFA_SUCCESS` without arguments.
    SuccessNoArgs,
    /// 32-bit `FFA_INTERRUPT`, with the target and interrupt ID zero.
    Interrupt,
    /// The `FFA_VERSION` call in the registers, forwarded as a 32-bit direct request.
    VersionReq { src_id: u16, dst_id: u16 },
    /// A 32-bit direct request for a warm boot after a suspend to RAM.
    WarmBootReq { src_id: u16, dst_id: u16 },
    /// A 64-bit direct request with a PSCI call in x0-x3.
    PsciReq { src_id: u16, dst_id: u16, params: [u64; 4] },
    /// The call in the registers itself, as decoded and encoded again.
    Forward,
}

/// What `Interface::to_regs` writes for the call that `Interface::from_regs` decodes from the
/// registers, at the version, into the same registers.
pub uninterp spec fn ffa_forwarded(version: FfaVersion, regs: Seq<u64>) -> Seq<u64>;

/// Eight registers of a message, the rest kept from `regs`.
pub open spec fn regs8(head: Seq<u64>, regs: Seq<u64>) -> Seq<u64> {
    head + regs.subrange(8, 18)
}

/// The register value of a 32-bit status code: zero-extended.
pub open spec fn code_reg(code: i32) -> u64 {
    (code as u32) as u64
}

/// The endpoints of a direct message as w1 holds them.
pub open spec fn endpoints_reg(src_id: u16, dst_id: u16) -> u64 {
    (src_id as u64 * 0x1_0000 + dst_id as u64) as u64
}

/// The registers after the dispatcher writes the message into `regs` (which hold the call being
/// handled, or zero).
pub open spec fn ffa_out_regs(version: FfaVersion, out: FfaOut, regs: Seq<u64>) -> Seq<u64> {
    match out {
        FfaOut::Error(e) => regs8(seq![FFA_ERROR_32 as u64, 0, code_reg(e.spec_code()), 0, 0, 0, 0, 0], regs),
        FfaOut::VersionOut(v) => regs8(
            seq![match v { Some(v) => v.spec_value(), None => 0xFFFF_FFFFu64 }, 0, 0, 0, 0, 0, 0, 0],
            regs,
        ),
        FfaOut::IdGetSuccess(id) => regs8(seq![FFA_SUCCESS_32 as u64, 0, id as u64, 0, 0, 0, 0, 0], regs),
        FfaOut::SpmIdGetSuccess(id) => regs8(seq![FFA_SUCCESS_32 as u64, 0, id as u64, 0, 0, 0, 0, 0], regs),
        FfaOut::SuccessNoArgs => regs8(seq![FFA_SUCCESS_32 as u64, 0, 0, 0, 0, 0, 0, 0], regs),
        FfaOut::Interrupt => regs8(seq![FFA_INTERRUPT_32 as u64, 0, 0, 0, 0, 0, 0, 0], regs),
        FfaOut::VersionReq { src_id, dst_id } => regs8(
            seq![
                FFA_MSG_SEND_DIRECT_REQ_32 as u64,
                endpoints_reg(src_id, dst_id),
                FWK_VERSION_REQ as u64,
                (regs[1] as u32) as u64,
                (regs[2] as u32) as u64,
                0,
                0,
                0,
            ],
            regs,
        ),
        FfaOut::WarmBootReq { src_id, dst_id } => regs8(
            seq![FFA_MSG_SEND_DIRECT_REQ_32 as u64, endpoints_reg(src_id, dst_id), FWK_POWER_WARM_BOOT_REQ as u64, 0, 0, 0, 0, 0],
            regs,
        ),
        FfaOut::PsciReq { src_id, dst_id, params } => seq![
            FFA_MSG_SEND_DIRECT_REQ_64 as u64,
            endpoints_reg(src_id, dst_id),
            FWK_POWER_PSCI_REQ as u64,
            params[0],
            params[1],
            params[2],
            params[3],
            0,
        ] + Seq::new(10, |i: int| 0u64),
        FfaOut::Forward => ffa_forwarded(version, regs),
    }
}

/// What the message needs to be encoded: a decoded call to forward, or a version without bit 31.
pub open spec fn can_write(version: FfaVersion, out: FfaOut, regs: Seq<u64>) -> bool {
    &&& version_supported(version)
    &&& out is Forward ==> ffa_decodes(version, regs)
    &&& out is VersionReq ==> ffa_decodes(version, regs) && spec_ffa_kind(regs[0] as u32) == FfaKind::Version
    &&& out matches FfaOut::VersionOut(Some(v)) ==> v.major < 0x8000
}

/// Writes 32-bit `FFA_ERROR` with the code, target and argument zero, with `Interface::error`
/// and `Interface::to_regs`, which write the first eight registers only.
#[verifier::external_body]
fn write_error(version: FfaVersion, code: i32, regs: &mut [u64; 18])
    requires
        version_supported(version),
        -9 <= code <= -1,
    ensures
        final(regs)@ == regs8(seq![FFA_ERROR_32 as u64, 0, code_reg(code), 0, 0, 0, 0, 0], old(regs)@),
{
    let error = arm_ffa::FfaError::try_from(code).unwrap();
    Interface::error(error, true).to_regs(Version(version.major, version.minor), regs);
}

/// Writes the answer to `FFA_VERSION` with `Interface::to_regs` (`VersionOut` writes the version,
/// or the SMCCC code -1, to w0 and clears w1-w7).
#[verifier::external_body]
fn write_version_out(version: FfaVersion, output: Option<FfaVersion>, regs: &mut [u64; 18])
    requires
        output matches Some(v) ==> v.major < 0x8000,
    ensures
        final(regs)@ == regs8(
            seq![match output { Some(v) => v.spec_value(), None => 0xFFFF_FFFFu64 }, 0, 0, 0, 0, 0, 0, 0],
            old(regs)@,
        ),
{
    let output_version = match output {
        Some(o) => VersionOut::Version(Version(o.major, o.minor)),
        None => VersionOut::NotSupported,
    };
    Interface::VersionOut { output_version }.to_regs(Version(version.major, version.minor), regs);
}

/// Writes 32-bit `FFA_SUCCESS` with `SuccessArgsIdGet { id }` in w2, with `Interface::to_regs`.
#[verifier::external_body]
fn write_id_get_success(version: FfaVersion, id: u16, regs: &mut [u64; 18])
    requires
        version_supported(version),
    ensures
        final(regs)@ == regs8(seq![FFA_SUCCESS_32 as u64, 0, id as u64, 0, 0, 0, 0, 0], old(regs)@),
{
    let msg = Interface::Success { target_info: TargetInfo::default(), args: SuccessArgsIdGet { id }.into() };
    msg.to_regs(Version(version.major, version.minor), regs);
}

/// Writes 32-bit `FFA_SUCCESS` with `SuccessArgsSpmIdGet { id }` in w2, with `Interface::to_regs`.
#[verifier::external_body]
fn write_spm_id_get_success(version: FfaVersion, id: u16, regs: &mut [u64; 18])
    requires
        version_supported(version),
    ensures
        final(regs)@ == regs8(seq![FFA_SUCCESS_32 as u64, 0, id as u64, 0, 0, 0, 0, 0], old(regs)@),
{
    let msg = Interface::Success { target_info: TargetInfo::default(), args: SuccessArgsSpmIdGet { id }.into() };
    msg.to_regs(Version(version.major, version.minor), regs);
}

/// Writes `Interface::success32_noargs()` with `Interface::to_regs`.
#[verifier::external_body]
fn write_success_no_args(version: FfaVersion, regs: &mut [u64; 18])
    requires
        version_supported(version),
    ensures
        final(regs)@ == regs8(seq![FFA_SUCCESS_32 as u64, 0, 0, 0, 0, 0, 0, 0], old(regs)@),
{
    Interface::success32_noargs().to_regs(Version(version.major, version.minor), regs);
}

/// Writes 32-bit `FFA_INTERRUPT` with the target and the interrupt ID zero, with
/// `Interface::to_regs`.
#[verifier::external_body]
fn write_interrupt(version: FfaVersion, regs: &mut [u64; 18])
    requires
        version_supported(version),
    ensures
        final(regs)@ == regs8(seq![FFA_INTERRUPT_32 as u64, 0, 0, 0, 0, 0, 0, 0], old(regs)@),
{
    let target_info = TargetInfo { endpoint_id: 0, vcpu_id: 0 };
    Interface::Interrupt { target_info, interrupt_id: 0, is_32bit: true }
        .to_regs(Version(version.major, version.minor), regs);
}

/// Writes a 32-bit direct request with the warm boot framework message (boot type: exit from
/// suspend to RAM, 0), with `Interface::to_regs`.
#[verifier::external_body]
fn write_warm_boot_req(version: FfaVersion, src_id: u16, dst_id: u16, regs: &mut [u64; 18])
    requires
        version_supported(version),
    ensures
        final(regs)@ == regs8(
            seq![FFA_MSG_SEND_DIRECT_REQ_32 as u64, endpoints_reg(src_id, dst_id), FWK_POWER_WARM_BOOT_REQ as u64, 0, 0, 0, 0, 0],
            old(regs)@,
        ),
{
    let args = DirectMsgArgs::PowerWarmBootReq { boot_type: WarmBootType::ExitFromSuspendToRam };
    Interface::MsgSendDirectReq { src_id, dst_id, args }.to_regs(Version(version.major, version.minor), regs);
}

/// Writes a 64-bit direct request with the PSCI framework message and the PSCI call in x3-x6,
/// with `Interface::to_regs`, which clears the registers x7-x17.
#[verifier::external_body]
fn write_psci_req(version: FfaVersion, src_id: u16, dst_id: u16, params: [u64; 4], regs: &mut [u64; 18])
    requires
        version_supported(version),
    ensures
        final(regs)@ == seq![
            FFA_MSG_SEND_DIRECT_REQ_64 as u64,
            endpoints_reg(src_id, dst_id),
            FWK_POWER_PSCI_REQ as u64,
            params[0],
            params[1],
            params[2],
            params[3],
            0,
        ] + Seq::new(10, |i: int| 0u64),
{
    let args = DirectMsgArgs::PowerPsciReq64 { params };
    Interface::MsgSendDirectReq { src_id, dst_id, args }.to_regs(Version(version.major, version.minor), regs);
}

/// Forwards the `FFA_VERSION` call in the registers as a 32-bit direct request with its input
/// version and flags, with `Interface::from_regs` and `Interface::to_regs`. A decoded version and
/// flags encode to the values that they were decoded from.
#[verifier::external_body]
fn write_version_req(version: FfaVersion, src_id: u16, dst_id: u16, regs: &mut [u64; 18])
    requires
        version_supported(version),
        ffa_decodes(version, old(regs)@),
        spec_ffa_kind(old(regs)@[0] as u32) == FfaKind::Version,
    ensures
        final(regs)@ == ffa_out_regs(version, FfaOut::VersionReq { src_id, dst_id }, old(regs)@),
{
    let v = Version(version.major, version.minor);
    if let Ok(Interface::Version { input_version, flags }) = Interface::from_regs(v, regs) {
        let args = DirectMsgArgs::VersionReq { version: input_version, flags };
        Interface::MsgSendDirectReq { src_id, dst_id, args }.to_regs(v, regs);
    }
}

/// Encodes the call that the registers decode to back into them, with `Interface::from_regs`
/// and `Interface::to_regs`. The result is named.
#[verifier::external_body]
fn write_forward(version: FfaVersion, regs: &mut [u64; 18])
    requires
        version_supported(version),
        ffa_decodes(version, old(regs)@),
    ensures
        final(regs)@ == ffa_forwarded(version, old(regs)@),
{
    let v = Version(version.major, version.minor);
    if let Ok(msg) = Interface::from_regs(v, regs) {
        msg.to_regs(v, regs);
    }
}

/// Writes the message into the registers.
pub fn write_ffa_out(version: FfaVersion, out: &FfaOut, regs: &mut [u64; 18])
    requires
        can_write(version, *out, old(regs)@),
    ensures
        final(regs)@ == ffa_out_regs(version, *out, old(regs)@),
{
    match out {
        FfaOut::Error(e) => write_error(version, e.code(), regs),
        FfaOut::VersionOut(v) => write_version_out(version, *v, regs),
        FfaOut::IdGetSuccess(id) => write_id_get_success(version, *id, regs),
        FfaOut::SpmIdGetSuccess(id) => write_spm_id_get_success(version, *id, regs),
        FfaOut::SuccessNoArgs => write_success_no_args(version, regs),
        FfaOut::Interrupt => write_interrupt(version, regs),
        FfaOut::VersionReq { src_id, dst_id } => write_version_req(version, *src_id, *dst_id, regs),
        FfaOut::WarmBootReq { src_id, dst_id } => write_warm_boot_req(version, *src_id, *dst_id, regs),
        FfaOut::PsciReq { src_id, dst_id, params } => write_psci_req(version, *src_id, *dst_id, *params, regs),
        FfaOut::Forward => write_forward(version, regs),
    }
}

} // verus!
