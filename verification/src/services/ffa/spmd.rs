//! The Secure Partition Manager Dispatcher (SPMD): it routes FF-A calls between the normal world
//! and the Secure Partition Manager Core (SPMC) in the secure world, and keeps, for each core,
//! the state of the SPMC on it.

use crate::context::World;
use crate::platform::Platform;
use crate::services::function_in_range;
use crate::services::ffa::{
    decode_call, ffa_decodes, ffa_parse_result, spec_call, spec_ffa_kind, version_supported,
    write_ffa_out, DirectResponse, FfaCall, FfaError, FfaKind, FfaOut, FfaParseError, FfaVersion,
    ffa_out_regs,
};
use crate::services::psci::PsciSpmInterface;
use crate::smccc::{FunctionId, SmcReturn, OEN_STANDARD_SECURE};
use vstd::prelude::*;

verus! {

/// The lowest function number of the FF-A calls.
pub const FUNCTION_NUMBER_MIN: u16 = 0x0060;
/// The highest function number of the FF-A calls.
pub const FUNCTION_NUMBER_MAX: u16 = 0x00EF;

/// The FF-A endpoint ID of the SPMD.
pub const OWN_ID: u16 = 0xffff;
/// The FF-A endpoint ID of the hypervisor or normal world kernel.
pub const NS_EP_ID: u16 = 0;
/// The SPMC endpoint ID.
pub const SPMC_ID: u16 = 0x8000;
/// The entry point of the SPMC on the primary core.
pub const SPMC_PRIMARY_EP: usize = 0x0600_0000;

/// The FF-A version that the SPMD implements: 1.2.
pub open spec fn spec_spmd_version() -> FfaVersion {
    FfaVersion { major: 1, minor: 2 }
}

/// Returns the FF-A version that the SPMD implements.
pub fn spmd_version() -> (r: FfaVersion)
    ensures
        r == spec_spmd_version(),
{
    FfaVersion { major: 1, minor: 2 }
}

/// The state of the SPMC on a core.
#[derive(Clone, Copy, Debug, Eq, PartialEq, Structural)]
pub enum SpmcState {
    /// The core is off.
    Off,
    /// The SPMC initialises itself on the core.
    Boot,
    /// The SPMC serves calls.
    Runtime,
    /// The SPMC handles a secure interrupt that preempted the normal world.
    SecureInterrupt,
    /// The SPMC handles a PSCI event.
    PsciEventHandling,
}

/// Whether an FF-A endpoint ID belongs to the secure world: its bit 15 is set.
pub open spec fn secure_id(id: u16) -> bool {
    id & 0x8000u16 != 0u16
}

/// The answer to a call from the secure world that is handled the same way in every state:
/// `FFA_FEATURES`, `FFA_ID_GET` and `FFA_SPM_ID_GET`; any other such call is not supported.
pub open spec fn common_reply(spmc_id: u16, call: FfaCall) -> (Option<FfaOut>, World) {
    let out = match call.kind {
        FfaKind::Features => FfaOut::SuccessNoArgs,
        FfaKind::IdGet => FfaOut::IdGetSuccess(spmc_id),
        FfaKind::SpmIdGet => FfaOut::SpmIdGetSuccess(OWN_ID),
        _ => FfaOut::Error(FfaError::NotSupported),
    };
    (Some(out), World::Secure)
}

/// Whether the call is one of those answered by [`common_reply`] in the boot and runtime states.
pub open spec fn is_common(kind: FfaKind) -> bool {
    kind == FfaKind::Features || kind == FfaKind::IdGet || kind == FfaKind::SpmIdGet
        || kind == FfaKind::PartitionInfoGetRegs
}

/// The answer to a call from the secure world while the SPMC boots on the core. `FFA_ERROR` is
/// excluded: it means that the SPMC failed to initialise.
pub open spec fn boot_reply(spmc_id: u16, call: FfaCall) -> (Option<FfaOut>, World) {
    match call.kind {
        FfaKind::Version => (
            Some(FfaOut::VersionOut(Some(
                if spec_spmd_version().spec_le(call.fields.input_version.unwrap()) {
                    spec_spmd_version()
                } else {
                    call.fields.input_version.unwrap()
                },
            ))),
            World::Secure,
        ),
        FfaKind::MsgWait => (None, World::NonSecure),
        FfaKind::SecondaryEpRegister => (Some(FfaOut::SuccessNoArgs), World::Secure),
        _ => if is_common(call.kind) {
            common_reply(spmc_id, call)
        } else {
            (Some(FfaOut::Error(FfaError::Denied)), World::Secure)
        },
    }
}

/// The answer to a call from the secure world at runtime.
pub open spec fn runtime_reply(spmc_id: u16, call: FfaCall) -> (Option<FfaOut>, World) {
    let src = call.fields.endpoints.unwrap().0;
    let dst = call.fields.endpoints.unwrap().1;
    match call.kind {
        FfaKind::NormalWorldResume => (Some(FfaOut::Error(FfaError::Denied)), World::Secure),
        FfaKind::MsgSendDirectResp => if !secure_id(src) || (secure_id(dst) && dst != OWN_ID) {
            (Some(FfaOut::Error(FfaError::InvalidParameters)), World::Secure)
        } else if dst == OWN_ID {
            match call.fields.response {
                DirectResponse::Version(v) => if src == spmc_id {
                    (Some(FfaOut::VersionOut(v)), World::NonSecure)
                } else {
                    (Some(FfaOut::Error(FfaError::InvalidParameters)), World::Secure)
                },
                _ => (Some(FfaOut::Error(FfaError::InvalidParameters)), World::Secure),
            }
        } else {
            (Some(FfaOut::Forward), World::NonSecure)
        },
        FfaKind::MsgSendDirectResp2 => if !secure_id(src) || secure_id(dst) {
            (Some(FfaOut::Error(FfaError::InvalidParameters)), World::Secure)
        } else {
            (Some(FfaOut::Forward), World::NonSecure)
        },
        FfaKind::Error | FfaKind::Success | FfaKind::Interrupt | FfaKind::MsgWait | FfaKind::Yield
        | FfaKind::MemRetrieveResp | FfaKind::MemOpPause | FfaKind::MemFragRx
        | FfaKind::MemFragTx => (Some(FfaOut::Forward), World::NonSecure),
        _ => if is_common(call.kind) {
            common_reply(spmc_id, call)
        } else {
            (Some(FfaOut::Error(FfaError::NotSupported)), World::Secure)
        },
    }
}

/// The answer to a call from the secure world while it handles a secure interrupt:
/// `FFA_NORMAL_WORLD_RESUME` resumes the normal world with its registers unchanged.
pub open spec fn interrupt_reply(call: FfaCall) -> (Option<FfaOut>, World) {
    if call.kind == FfaKind::NormalWorldResume {
        (None, World::NonSecure)
    } else {
        (Some(FfaOut::Error(FfaError::Denied)), World::Secure)
    }
}

/// Whether the call is the SPMC's answer to a PSCI request: a direct response from the SPMC to
/// the SPMD with a PSCI status.
pub open spec fn is_psci_response(spmc_id: u16, call: FfaCall) -> bool {
    &&& call.kind == FfaKind::MsgSendDirectResp
    &&& call.fields.endpoints == Some((spmc_id, OWN_ID))
    &&& call.fields.response is PowerPsci
}

/// The answer to a call from the secure world while it handles a PSCI event: the PSCI response
/// resumes the normal world with its registers unchanged.
pub open spec fn psci_event_reply(spmc_id: u16, call: FfaCall) -> (Option<FfaOut>, World) {
    if is_psci_response(spmc_id, call) {
        (None, World::NonSecure)
    } else {
        (Some(FfaOut::Error(FfaError::Denied)), World::Secure)
    }
}

/// The answer to a call from the secure world in the given state.
pub open spec fn secure_reply(state: SpmcState, spmc_id: u16, call: FfaCall) -> (Option<FfaOut>, World) {
    match state {
        SpmcState::Boot => boot_reply(spmc_id, call),
        SpmcState::Runtime => runtime_reply(spmc_id, call),
        SpmcState::SecureInterrupt => interrupt_reply(call),
        SpmcState::PsciEventHandling => psci_event_reply(spmc_id, call),
        SpmcState::Off => (None, World::Secure),
    }
}

/// The state of the SPMC on the core after a call from the secure world.
pub open spec fn secure_next_state(state: SpmcState, spmc_id: u16, call: FfaCall) -> SpmcState {
    if state == SpmcState::Boot && call.kind == FfaKind::MsgWait {
        SpmcState::Runtime
    } else if state == SpmcState::SecureInterrupt && call.kind == FfaKind::NormalWorldResume {
        SpmcState::Runtime
    } else if state == SpmcState::PsciEventHandling && is_psci_response(spmc_id, call) {
        SpmcState::Runtime
    } else {
        state
    }
}

/// The answer to a call from the normal world.
pub open spec fn non_secure_reply(spmc_id: u16, call: FfaCall) -> (FfaOut, World) {
    let src = call.fields.endpoints.unwrap().0;
    let dst = call.fields.endpoints.unwrap().1;
    match call.kind {
        FfaKind::Version => (FfaOut::VersionReq { src_id: OWN_ID, dst_id: spmc_id }, World::Secure),
        FfaKind::IdGet => (FfaOut::IdGetSuccess(NS_EP_ID), World::NonSecure),
        FfaKind::SpmIdGet => (FfaOut::SpmIdGetSuccess(spmc_id), World::NonSecure),
        FfaKind::MsgSendDirectReq | FfaKind::MsgSendDirectReq2 => if secure_id(src) || !secure_id(dst) {
            (FfaOut::Error(FfaError::InvalidParameters), World::NonSecure)
        } else {
            (FfaOut::Forward, World::Secure)
        },
        FfaKind::MsgSend2 => if secure_id(call.fields.sender.unwrap()) {
            (FfaOut::Error(FfaError::InvalidParameters), World::NonSecure)
        } else {
            (FfaOut::Forward, World::Secure)
        },
        FfaKind::Error | FfaKind::Success | FfaKind::Features | FfaKind::RxAcquire
        | FfaKind::RxRelease | FfaKind::RxTxMap | FfaKind::RxTxUnmap | FfaKind::PartitionInfoGet
        | FfaKind::PartitionInfoGetRegs | FfaKind::Run | FfaKind::NotificationBitmapCreate
        | FfaKind::NotificationBitmapDestroy | FfaKind::NotificationBind
        | FfaKind::NotificationUnbind | FfaKind::NotificationSet | FfaKind::NotificationGet
        | FfaKind::NotificationInfoGet | FfaKind::MemDonate | FfaKind::MemLend | FfaKind::MemShare
        | FfaKind::MemRetrieveReq | FfaKind::MemReclaim | FfaKind::MemOpResume | FfaKind::MemFragRx
        | FfaKind::MemFragTx => (FfaOut::Forward, World::Secure),
        _ => (FfaOut::Error(FfaError::NotSupported), World::NonSecure),
    }
}

/// The FF-A error that answers registers which do not decode.
pub open spec fn parse_error_reply(e: FfaParseError) -> FfaError {
    match e {
        FfaParseError::Code(c) => FfaError::spec_from_code(c),
        _ => FfaError::InvalidParameters,
    }
}

/// The registers of an answer: the message written into the registers of the call, or none.
pub open spec fn reply_regs(version: FfaVersion, out: Option<FfaOut>, regs: Seq<u64>) -> Seq<u64> {
    match out {
        Some(o) => ffa_out_regs(version, o, regs),
        None => Seq::empty(),
    }
}

/// Nothing in the eighteen registers.
pub open spec fn zero_regs() -> Seq<u64> {
    Seq::new(18, |i: int| 0u64)
}

/// What an SMC from the secure world gives: the registers to return, the world to run next and
/// the SPMD's view after it.
pub open spec fn spec_handle_secure_smc(s: SpmdView, core: int, regs: Seq<u64>) -> (Seq<u64>, World, SpmdView) {
    match ffa_parse_result(s.spmc_version, regs) {
        Some(e) => (ffa_out_regs(s.spmc_version, FfaOut::Error(parse_error_reply(e)), regs), World::Secure, s),
        None => {
            let state = s.states[core];
            let call = spec_call(s.spmc_version, regs);
            let reply = secure_reply(state, s.spmc_id, call);
            let view = SpmdView {
                states: s.states.update(core, secure_next_state(state, s.spmc_id, call)),
                secondary_ep: if state == SpmcState::Boot && call.kind == FfaKind::SecondaryEpRegister {
                    call.fields.entrypoint.unwrap() as usize
                } else {
                    s.secondary_ep
                },
                ..s
            };
            (reply_regs(s.spmc_version, reply.0, regs), reply.1, view)
        },
    }
}

/// Whether an SMC from the secure world is one the SPMD cannot handle on the core: the SPMC is
/// off there, or it reports with `FFA_ERROR` that it failed to initialise.
pub open spec fn secure_smc_fails(s: SpmdView, core: int, regs: Seq<u64>) -> bool {
    ||| s.states[core] == SpmcState::Off
    ||| (s.states[core] == SpmcState::Boot && ffa_decodes(s.spmc_version, regs)
        && spec_ffa_kind(regs[0] as u32) == FfaKind::Error)
}

/// What an SMC from the normal world gives: the registers to return and the world to run next.
/// A call whose version field does not decode is answered NOT_SUPPORTED as `FFA_VERSION` would
/// be.
pub open spec fn spec_handle_non_secure_smc(s: SpmdView, regs: Seq<u64>) -> (Seq<u64>, World) {
    match ffa_parse_result(s.spmc_version, regs) {
        Some(FfaParseError::InvalidVersion) => (ffa_out_regs(s.spmc_version, FfaOut::VersionOut(None), regs), World::NonSecure),
        Some(e) => (ffa_out_regs(s.spmc_version, FfaOut::Error(parse_error_reply(e)), regs), World::NonSecure),
        None => {
            let reply = non_secure_reply(s.spmc_id, spec_call(s.spmc_version, regs));
            (ffa_out_regs(s.spmc_version, reply.0, regs), reply.1)
        },
    }
}

/// A direct request from the normal world reaches the secure world only when it goes from a
/// normal world endpoint to a secure endpoint: the destination ID (bits 15:0 of w1) has bit 15
/// set and the source ID (bits 31:16) has it clear. Any other direct request is refused with
/// INVALID_PARAMETERS to the normal world; an accepted one is forwarded as it is.
pub proof fn lemma_non_secure_direct_request(s: SpmdView, regs: Seq<u64>)
    requires
        ffa_parse_result(s.spmc_version, regs) is None,
        regs[0] as u32 == 0x8400_006F || regs[0] as u32 == 0xC400_006F || regs[0] as u32 == 0xC400_008D,
    ensures
        ({
            let (out, world) = spec_handle_non_secure_smc(s, regs);
            let accepted = regs[1] & 0x8000 != 0 && (regs[1] >> 16u64) & 0x8000 == 0;
            &&& world == World::Secure <==> accepted
            &&& accepted ==> out == ffa_out_regs(s.spmc_version, FfaOut::Forward, regs)
            &&& !accepted ==> world == World::NonSecure && out == ffa_out_regs(
                s.spmc_version,
                FfaOut::Error(FfaError::InvalidParameters),
                regs,
            )
        }),
{
    let v = regs[1];
    assert((v as u16) & 0x8000u16 != 0u16 <==> v & 0x8000 != 0) by (bit_vector);
    assert(((v >> 16u64) as u16) & 0x8000u16 != 0u16 <==> (v >> 16u64) & 0x8000 != 0) by (bit_vector);
}

/// A call from the secure world changes the SPMC's state on the calling core only, and there
/// only to `Runtime` (the end of the boot, of a secure interrupt or of a PSCI event); it keeps
/// the SPMC's endpoint ID, version and primary entry point.
pub proof fn lemma_secure_smc_state(s: SpmdView, core: int, regs: Seq<u64>)
    requires
        0 <= core < s.states.len(),
    ensures
        ({
            let t = spec_handle_secure_smc(s, core, regs).2;
            &&& t.states.len() == s.states.len()
            &&& forall|c: int| 0 <= c < s.states.len() && c != core ==> t.states[c] == s.states[c]
            &&& t.states[core] == s.states[core] || t.states[core] == SpmcState::Runtime
            &&& t.spmc_id == s.spmc_id
            &&& t.spmc_version == s.spmc_version
            &&& t.primary_ep == s.primary_ep
        }),
{
}

/// The version that the SPMD answers to `FFA_VERSION` while the SPMC boots is the lower of the
/// SPMD's and the caller's version.
pub proof fn lemma_boot_version_negotiation(spmc_id: u16, call: FfaCall)
    requires
        call.kind == FfaKind::Version,
        call.wf(),
    ensures
        ({
            let v = boot_reply(spmc_id, call).0.unwrap()->VersionOut_0.unwrap();
            &&& v.spec_le(spec_spmd_version())
            &&& v.spec_le(call.fields.input_version.unwrap())
            &&& (v == spec_spmd_version() || v == call.fields.input_version.unwrap())
        }),
{
}

/// The SPMD's view: the SPMC's endpoint ID, FF-A version and entry points, and its state on each
/// core.
pub struct SpmdView {
    pub spmc_id: u16,
    pub spmc_version: FfaVersion,
    pub primary_ep: usize,
    pub secondary_ep: usize,
    pub states: Seq<SpmcState>,
}

/// Secure Partition Manager Dispatcher, defined by Arm Firmware Framework for A-Profile (FF-A).
pub struct Spmd {
    spmc_id: u16,
    spmc_version: FfaVersion,
    spmc_primary_ep: usize,
    spmc_secondary_ep: usize,
    core_local: Vec<SpmcState>,
}

impl Spmd {
    /// The SPMD's view.
    pub closed spec fn view(&self) -> SpmdView {
        SpmdView {
            spmc_id: self.spmc_id,
            spmc_version: self.spmc_version,
            primary_ep: self.spmc_primary_ep,
            secondary_ep: self.spmc_secondary_ep,
            states: self.core_local@,
        }
    }

    /// The SPMC's FF-A version is one that messages can be decoded and encoded at.
    pub open spec fn wf(&self) -> bool {
        version_supported(self@.spmc_version)
    }

    /// The state of the SPMC on a core.
    pub open spec fn state(&self, core: int) -> SpmcState {
        self@.states[core]
    }

    /// Initialises the SPMD state with the SPMC's attributes, on the primary core `current_core`
    /// at cold boot: the SPMC is off on every core but this one, where it boots.
    pub fn new<PL: Platform>(current_core: usize) -> (r: Self)
        requires
            current_core < PL::spec_core_count(),
        ensures
            r.wf(),
            r@.spmc_id == SPMC_ID,
            r@.spmc_version == spec_spmd_version(),
            r@.primary_ep == SPMC_PRIMARY_EP,
            r@.secondary_ep == SPMC_PRIMARY_EP,
            r@.states.len() == PL::spec_core_count(),
            forall|c: int| 0 <= c < r@.states.len() ==> r.state(c) == (if c == current_core {
                SpmcState::Boot
            } else {
                SpmcState::Off
            }),
    {
        let spmc_version = spmd_version();
        let compatible = spmc_version.is_compatible_to(&spmd_version());
        assert(compatible);
        let count = PL::core_count();
        let mut core_local: Vec<SpmcState> = Vec::new();
        let mut i: usize = 0;
        while i < count
            invariant
                i <= count,
                count == PL::spec_core_count(),
                core_local@.len() == i,
                forall|c: int| 0 <= c < i ==> core_local@[c] == SpmcState::Off,
            decreases count - i,
        {
            core_local.push(SpmcState::Off);
            i = i + 1;
        }
        let mut spmd = Spmd {
            spmc_id: SPMC_ID,
            spmc_version,
            spmc_primary_ep: SPMC_PRIMARY_EP,
            // By default the secondary entry point is the same as the primary one.
            spmc_secondary_ep: SPMC_PRIMARY_EP,
            core_local,
        };
        spmd.switch_spmc_local_state(current_core, SpmcState::Off, SpmcState::Boot);
        spmd
    }

    /// The entry point of the SPMC on the primary core.
    pub fn primary_ep(&self) -> (r: usize)
        ensures
            r == self@.primary_ep,
    {
        self.spmc_primary_ep
    }

    /// The entry point of the SPMC on the secondary cores.
    pub fn secondary_ep(&self) -> (r: usize)
        ensures
            r == self@.secondary_ep,
    {
        self.spmc_secondary_ep
    }

    /// Returns the state of the SPMC on the core.
    pub fn spmc_state(&self, core: usize) -> (r: SpmcState)
        requires
            core < self@.states.len(),
        ensures
            r == self.state(core as int),
    {
        self.core_local[core]
    }

    /// Moves the SPMC on the core from `expected_state` to `new_state`.
    fn switch_spmc_local_state(&mut self, core: usize, expected_state: SpmcState, new_state: SpmcState)
        requires
            core < old(self)@.states.len(),
            old(self).state(core as int) == expected_state,
        ensures
            final(self)@ == (SpmdView { states: old(self)@.states.update(core as int, new_state), ..old(self)@ }),
    {
        self.core_local.set(core, new_state);
    }

    /// Returns whether the SPMD handles `function`: the fast calls of the standard secure service
    /// with a function number from 0x60 to 0xEF.
    pub fn owns(&self, function: FunctionId) -> (r: bool)
        ensures
            r == crate::services::owns_range(function.0, OEN_STANDARD_SECURE, FUNCTION_NUMBER_MIN, FUNCTION_NUMBER_MAX),
    {
        function_in_range(function, OEN_STANDARD_SECURE, FUNCTION_NUMBER_MIN, FUNCTION_NUMBER_MAX)
    }

    /// Whether the FF-A endpoint ID is assigned to the secure world.
    pub fn is_secure_id(id: u16) -> (r: bool)
        ensures
            r == secure_id(id),
    {
        id & 0x8000 != 0
    }

    /// Handles the calls from the secure world that are handled the same way in every state.
    fn handle_secure_call_common(&self, call: &FfaCall) -> (r: (Option<FfaOut>, World))
        ensures
            r == common_reply(self@.spmc_id, *call),
    {
        let out = match call.kind {
            FfaKind::Features => FfaOut::SuccessNoArgs,
            FfaKind::IdGet => FfaOut::IdGetSuccess(self.spmc_id),
            FfaKind::SpmIdGet => FfaOut::SpmIdGetSuccess(OWN_ID),
            _ => FfaOut::Error(FfaError::NotSupported),
        };
        (Some(out), World::Secure)
    }

    /// Handles a call from the secure world while the SPMC boots on the core: `FFA_MSG_WAIT`
    /// ends its initialisation, `FFA_SECONDARY_EP_REGISTER` sets the entry point of the other
    /// cores.
    fn handle_secure_call_boot(&mut self, core: usize, call: &FfaCall) -> (r: (Option<FfaOut>, World))
        requires
            core < old(self)@.states.len(),
            old(self).state(core as int) == SpmcState::Boot,
            call.wf(),
            call.kind != FfaKind::Error,
        ensures
            r == boot_reply(old(self)@.spmc_id, *call),
            final(self)@ == (SpmdView {
                states: old(self)@.states.update(core as int, secure_next_state(SpmcState::Boot, old(self)@.spmc_id, *call)),
                secondary_ep: if call.kind == FfaKind::SecondaryEpRegister {
                    call.fields.entrypoint.unwrap() as usize
                } else {
                    old(self)@.secondary_ep
                },
                ..old(self)@
            }),
    {
        match call.kind {
            FfaKind::Version => {
                let input_version = call.fields.input_version.unwrap();
                let out = FfaOut::VersionOut(Some(spmd_version().min(input_version)));
                proof {
                    assert(self@.states.update(core as int, SpmcState::Boot) =~= self@.states);
                }
                (Some(out), World::Secure)
            },
            FfaKind::MsgWait => {
                // The first FFA_MSG_WAIT means that the SPMC initialised; it is not a response
                // to a call of the normal world, so it is not forwarded.
                self.switch_spmc_local_state(core, SpmcState::Boot, SpmcState::Runtime);
                (None, World::NonSecure)
            },
            FfaKind::SecondaryEpRegister => {
                self.spmc_secondary_ep = call.fields.entrypoint.unwrap() as usize;
                proof {
                    assert(self@.states.update(core as int, SpmcState::Boot) =~= self@.states);
                }
                (Some(FfaOut::SuccessNoArgs), World::Secure)
            },
            FfaKind::Features | FfaKind::IdGet | FfaKind::SpmIdGet | FfaKind::PartitionInfoGetRegs => {
                proof {
                    assert(self@.states.update(core as int, SpmcState::Boot) =~= self@.states);
                }
                self.handle_secure_call_common(call)
            },
            _ => {
                proof {
                    assert(self@.states.update(core as int, SpmcState::Boot) =~= self@.states);
                }
                (Some(FfaOut::Error(FfaError::Denied)), World::Secure)
            },
        }
    }

    /// Handles a call from the secure world at runtime: answers and notifications of the SPMC
    /// go to the normal world, the answer to a forwarded `FFA_VERSION` is turned into the
    /// version.
    fn handle_secure_call_runtime(&self, call: &FfaCall) -> (r: (Option<FfaOut>, World))
        requires
            call.wf(),
        ensures
            r == runtime_reply(self@.spmc_id, *call),
    {
        match call.kind {
            FfaKind::NormalWorldResume => {
                // The normal world was not preempted.
                (Some(FfaOut::Error(FfaError::Denied)), World::Secure)
            },
            FfaKind::MsgSendDirectResp => {
                let (src_id, dst_id) = call.fields.endpoints.unwrap();
                if !Self::is_secure_id(src_id) || (Self::is_secure_id(dst_id) && dst_id != OWN_ID) {
                    (Some(FfaOut::Error(FfaError::InvalidParameters)), World::Secure)
                } else if dst_id == OWN_ID {
                    match call.fields.response {
                        DirectResponse::Version(version) => if src_id == self.spmc_id {
                            (Some(FfaOut::VersionOut(version)), World::NonSecure)
                        } else {
                            (Some(FfaOut::Error(FfaError::InvalidParameters)), World::Secure)
                        },
                        _ => (Some(FfaOut::Error(FfaError::InvalidParameters)), World::Secure),
                    }
                } else {
                    // Forward to the normal world.
                    (Some(FfaOut::Forward), World::NonSecure)
                }
            },
            FfaKind::MsgSendDirectResp2 => {
                let (src_id, dst_id) = call.fields.endpoints.unwrap();
                if !Self::is_secure_id(src_id) || Self::is_secure_id(dst_id) {
                    (Some(FfaOut::Error(FfaError::InvalidParameters)), World::Secure)
                } else {
                    (Some(FfaOut::Forward), World::NonSecure)
                }
            },
            FfaKind::Features | FfaKind::IdGet | FfaKind::SpmIdGet | FfaKind::PartitionInfoGetRegs => {
                self.handle_secure_call_common(call)
            },
            FfaKind::Error | FfaKind::Success | FfaKind::Interrupt | FfaKind::MsgWait | FfaKind::Yield
            | FfaKind::MemRetrieveResp | FfaKind::MemOpPause | FfaKind::MemFragRx
            | FfaKind::MemFragTx => {
                // Forward to the normal world.
                (Some(FfaOut::Forward), World::NonSecure)
            },
            _ => (Some(FfaOut::Error(FfaError::NotSupported)), World::Secure),
        }
    }

    /// Handles a call from the secure world while it handles a secure interrupt. The normal
    /// world, which the interrupt preempted, resumes with its registers unchanged.
    fn handle_secure_call_interrupt(&mut self, core: usize, call: &FfaCall) -> (r: (Option<FfaOut>, World))
        requires
            core < old(self)@.states.len(),
            old(self).state(core as int) == SpmcState::SecureInterrupt,
        ensures
            r == interrupt_reply(*call),
            final(self)@ == (SpmdView {
                states: old(self)@.states.update(core as int, secure_next_state(SpmcState::SecureInterrupt, old(self)@.spmc_id, *call)),
                ..old(self)@
            }),
    {
        if call.kind == FfaKind::NormalWorldResume {
            self.switch_spmc_local_state(core, SpmcState::SecureInterrupt, SpmcState::Runtime);
            (None, World::NonSecure)
        } else {
            proof {
                assert(self@.states.update(core as int, SpmcState::SecureInterrupt) =~= self@.states);
            }
            (Some(FfaOut::Error(FfaError::Denied)), World::Secure)
        }
    }

    /// Handles a call from the secure world while it handles a PSCI event: the SPMC's PSCI
    /// response resumes the normal world with its registers unchanged.
    fn handle_secure_call_psci_event(&mut self, core: usize, call: &FfaCall) -> (r: (Option<FfaOut>, World))
        requires
            core < old(self)@.states.len(),
            old(self).state(core as int) == SpmcState::PsciEventHandling,
        ensures
            r == psci_event_reply(old(self)@.spmc_id, *call),
            final(self)@ == (SpmdView {
                states: old(self)@.states.update(core as int, secure_next_state(SpmcState::PsciEventHandling, old(self)@.spmc_id, *call)),
                ..old(self)@
            }),
    {
        let is_response = call.kind == FfaKind::MsgSendDirectResp && match call.fields.endpoints {
            Some((src_id, dst_id)) => src_id == self.spmc_id && dst_id == OWN_ID,
            None => false,
        } && match call.fields.response {
            DirectResponse::PowerPsci(_) => true,
            _ => false,
        };
        if is_response {
            self.switch_spmc_local_state(core, SpmcState::PsciEventHandling, SpmcState::Runtime);
            (None, World::NonSecure)
        } else {
            proof {
                assert(self@.states.update(core as int, SpmcState::PsciEventHandling) =~= self@.states);
            }
            (Some(FfaOut::Error(FfaError::Denied)), World::Secure)
        }
    }

    /// Handles a call from the normal world: calls for the secure world are forwarded to it,
    /// `FFA_VERSION` as a framework message to the SPMC; direct messages from a secure endpoint
    /// or to a normal world endpoint are rejected.
    fn handle_non_secure_call(&self, call: &FfaCall) -> (r: (FfaOut, World))
        requires
            call.wf(),
        ensures
            r == non_secure_reply(self@.spmc_id, *call),
    {
        match call.kind {
            FfaKind::Version => {
                // Forward the version call to the SPMC.
                (FfaOut::VersionReq { src_id: OWN_ID, dst_id: self.spmc_id }, World::Secure)
            },
            FfaKind::IdGet => (FfaOut::IdGetSuccess(NS_EP_ID), World::NonSecure),
            FfaKind::SpmIdGet => (FfaOut::SpmIdGetSuccess(self.spmc_id), World::NonSecure),
            FfaKind::MsgSendDirectReq | FfaKind::MsgSendDirectReq2 => {
                let (src_id, dst_id) = call.fields.endpoints.unwrap();
                if Self::is_secure_id(src_id) || !Self::is_secure_id(dst_id) {
                    (FfaOut::Error(FfaError::InvalidParameters), World::NonSecure)
                } else {
                    (FfaOut::Forward, World::Secure)
                }
            },
            FfaKind::MsgSend2 => {
                if Self::is_secure_id(call.fields.sender.unwrap()) {
                    (FfaOut::Error(FfaError::InvalidParameters), World::NonSecure)
                } else {
                    (FfaOut::Forward, World::Secure)
                }
            },
            FfaKind::Error | FfaKind::Success | FfaKind::Features | FfaKind::RxAcquire
            | FfaKind::RxRelease | FfaKind::RxTxMap | FfaKind::RxTxUnmap | FfaKind::PartitionInfoGet
            | FfaKind::PartitionInfoGetRegs | FfaKind::Run | FfaKind::NotificationBitmapCreate
            | FfaKind::NotificationBitmapDestroy | FfaKind::NotificationBind
            | FfaKind::NotificationUnbind | FfaKind::NotificationSet | FfaKind::NotificationGet
            | FfaKind::NotificationInfoGet | FfaKind::MemDonate | FfaKind::MemLend | FfaKind::MemShare
            | FfaKind::MemRetrieveReq | FfaKind::MemReclaim | FfaKind::MemOpResume | FfaKind::MemFragRx
            | FfaKind::MemFragTx => (FfaOut::Forward, World::Secure),
            _ => (FfaOut::Error(FfaError::NotSupported), World::NonSecure),
        }
    }

    /// Returns the FF-A error that answers registers which do not decode.
    fn parse_error(e: FfaParseError) -> (r: FfaError)
        requires
            e matches FfaParseError::Code(c) ==> -9 <= c <= -1,
        ensures
            r == parse_error_reply(e),
    {
        match e {
            FfaParseError::Code(c) => FfaError::from_code(c),
            _ => FfaError::InvalidParameters,
        }
    }

    /// Handles an SMC from the normal world with the call in `regs`, on a core where the SPMC
    /// runs: returns the registers to write back and the world to run next.
    pub fn handle_non_secure_smc(&self, core: usize, regs: &[u64; 18]) -> (r: (SmcReturn, World))
        requires
            self.wf(),
            core < self@.states.len(),
            ffa_decodes(self@.spmc_version, regs@) ==> self.state(core as int) == SpmcState::Runtime,
        ensures
            r.0.wf(),
            (r.0@, r.1) == spec_handle_non_secure_smc(self@, regs@),
    {
        let version = self.spmc_version;
        match decode_call(version, regs) {
            Err(FfaParseError::InvalidVersion) => {
                (self.reply(&Some(FfaOut::VersionOut(None)), regs), World::NonSecure)
            },
            Err(e) => {
                let out = Some(FfaOut::Error(Self::parse_error(e)));
                (self.reply(&out, regs), World::NonSecure)
            },
            Ok(call) => {
                let (out, next_world) = self.handle_non_secure_call(&call);
                (self.reply(&Some(out), regs), next_world)
            },
        }
    }

    /// Handles an SMC from the normal world, or returns `None` where the SPMC does not run on
    /// the core to take a call.
    pub fn try_handle_non_secure_smc(&self, core: usize, regs: &[u64; 18]) -> (r: Option<(SmcReturn, World)>)
        requires
            self.wf(),
            core < self@.states.len(),
        ensures
            r is None <==> (ffa_decodes(self@.spmc_version, regs@) && self.state(core as int) != SpmcState::Runtime),
            r matches Some(x) ==> x.0.wf() && (x.0@, x.1) == spec_handle_non_secure_smc(self@, regs@),
    {
        let decodes = match decode_call(self.spmc_version, regs) {
            Ok(_) => true,
            Err(_) => false,
        };
        if decodes && self.spmc_state(core) != SpmcState::Runtime {
            None
        } else {
            Some(self.handle_non_secure_smc(core, regs))
        }
    }

    /// Handles an SMC from the secure world with the call in `regs`: returns the registers to
    /// write back (none where the normal world resumes unchanged) and the world to run next.
    pub fn handle_secure_smc(&mut self, core: usize, regs: &[u64; 18]) -> (r: (SmcReturn, World))
        requires
            old(self).wf(),
            core < old(self)@.states.len(),
            !secure_smc_fails(old(self)@, core as int, regs@),
        ensures
            final(self).wf(),
            r.0.wf(),
            (r.0@, r.1, final(self)@) == spec_handle_secure_smc(old(self)@, core as int, regs@),
    {
        let version = self.spmc_version;
        match decode_call(version, regs) {
            Err(e) => {
                let out = Some(FfaOut::Error(Self::parse_error(e)));
                (self.reply(&out, regs), World::Secure)
            },
            Ok(call) => {
                let ghost s = self@;
                let state = self.spmc_state(core);
                let (out, next_world) = match state {
                    SpmcState::Boot => self.handle_secure_call_boot(core, &call),
                    SpmcState::Runtime => {
                        proof {
                            assert(s.states.update(core as int, SpmcState::Runtime) =~= s.states);
                        }
                        self.handle_secure_call_runtime(&call)
                    },
                    SpmcState::SecureInterrupt => self.handle_secure_call_interrupt(core, &call),
                    SpmcState::PsciEventHandling => self.handle_secure_call_psci_event(core, &call),
                    SpmcState::Off => (None, World::Secure),
                };
                proof {
                    if let Some(FfaOut::VersionOut(Some(v))) = out {
                        if state == SpmcState::Boot {
                            assert(v.major < 0x8000);
                        }
                    }
                }
                (self.reply(&out, regs), next_world)
            },
        }
    }

    /// Handles an SMC from the secure world, or returns `None` where it cannot be handled: the
    /// SPMC is off on the core, or failed to initialise.
    pub fn try_handle_secure_smc(&mut self, core: usize, regs: &[u64; 18]) -> (r: Option<(SmcReturn, World)>)
        requires
            old(self).wf(),
            core < old(self)@.states.len(),
        ensures
            final(self).wf(),
            r is None <==> secure_smc_fails(old(self)@, core as int, regs@),
            r is None ==> final(self)@ == old(self)@,
            r matches Some(x) ==> x.0.wf() && (x.0@, x.1, final(self)@) == spec_handle_secure_smc(old(self)@, core as int, regs@),
    {
        let state = self.spmc_state(core);
        let fails = match decode_call(self.spmc_version, regs) {
            Ok(call) => state == SpmcState::Off || (state == SpmcState::Boot && call.kind == FfaKind::Error),
            Err(_) => state == SpmcState::Off,
        };
        if fails {
            None
        } else {
            Some(self.handle_secure_smc(core, regs))
        }
    }

    /// Forwards a secure interrupt that preempted the normal world to the SPMC as
    /// `FFA_INTERRUPT`, written into `regs`.
    pub fn forward_secure_interrupt(&mut self, core: usize, regs: &[u64; 18]) -> (r: (SmcReturn, World))
        requires
            old(self).wf(),
            core < old(self)@.states.len(),
            old(self).state(core as int) == SpmcState::Runtime,
        ensures
            final(self).wf(),
            final(self)@ == (SpmdView { states: old(self)@.states.update(core as int, SpmcState::SecureInterrupt), ..old(self)@ }),
            r.0.wf(),
            r.0@ == ffa_out_regs(old(self)@.spmc_version, FfaOut::Interrupt, regs@),
            r.1 == World::Secure,
    {
        self.switch_spmc_local_state(core, SpmcState::Runtime, SpmcState::SecureInterrupt);
        (self.reply(&Some(FfaOut::Interrupt), regs), World::Secure)
    }

    /// Notifies the SPMD that the core was turned on for the first time or after CPU_OFF: the
    /// SPMC boots on it.
    pub fn handle_wake_from_cpu_off(&mut self, core: usize)
        requires
            core < old(self)@.states.len(),
            old(self).state(core as int) == SpmcState::Off,
        ensures
            final(self)@ == (SpmdView { states: old(self)@.states.update(core as int, SpmcState::Boot), ..old(self)@ }),
    {
        self.switch_spmc_local_state(core, SpmcState::Off, SpmcState::Boot);
    }

    /// Notifies the SPMD that the core woke up from a power down suspend: returns the warm boot
    /// request to the SPMC, whose answer ends the PSCI event.
    pub fn handle_wake_from_cpu_suspend(&mut self, core: usize) -> (r: SmcReturn)
        requires
            old(self).wf(),
            core < old(self)@.states.len(),
            old(self).state(core as int) == SpmcState::Runtime,
        ensures
            final(self).wf(),
            final(self)@ == (SpmdView { states: old(self)@.states.update(core as int, SpmcState::PsciEventHandling), ..old(self)@ }),
            r.wf(),
            r@ == ffa_out_regs(old(self)@.spmc_version, FfaOut::WarmBootReq { src_id: OWN_ID, dst_id: old(self)@.spmc_id }, zero_regs()),
    {
        self.switch_spmc_local_state(core, SpmcState::Runtime, SpmcState::PsciEventHandling);
        let zeros: [u64; 18] = vstd::array::array_fill_for_copy_types(0u64);
        proof {
            assert(zeros@ =~= zero_regs());
        }
        self.reply(&Some(FfaOut::WarmBootReq { src_id: OWN_ID, dst_id: self.spmc_id }), &zeros)
    }

    /// Notifies the SPMD that the core is turned off with CPU_OFF.
    pub fn notify_cpu_off(&mut self, core: usize)
        requires
            core < old(self)@.states.len(),
            old(self).state(core as int) == SpmcState::Runtime,
        ensures
            final(self)@ == (SpmdView { states: old(self)@.states.update(core as int, SpmcState::Off), ..old(self)@ }),
    {
        self.switch_spmc_local_state(core, SpmcState::Runtime, SpmcState::Off);
    }

    /// The registers that forward a PSCI request (x0-x3 of the PSCI call) to the SPMC: a 64-bit
    /// direct request from the SPMD.
    pub fn psci_request(&self, psci_request: &[u64; 4]) -> (r: SmcReturn)
        requires
            self.wf(),
        ensures
            r.wf(),
            r@ == ffa_out_regs(self@.spmc_version, FfaOut::PsciReq { src_id: OWN_ID, dst_id: self@.spmc_id, params: *psci_request }, zero_regs()),
    {
        let zeros: [u64; 18] = vstd::array::array_fill_for_copy_types(0u64);
        proof {
            assert(zeros@ =~= zero_regs());
        }
        self.reply(&Some(FfaOut::PsciReq { src_id: OWN_ID, dst_id: self.spmc_id, params: *psci_request }), &zeros)
    }

    /// The PSCI status in the SPMC's answer to a PSCI request, sign-extended; `None` if the
    /// registers hold anything else.
    pub fn psci_response(&self, regs: &[u64; 18]) -> (r: Option<u64>)
        requires
            self.wf(),
        ensures
            r == (if ffa_decodes(self@.spmc_version, regs@) && is_psci_response(self@.spmc_id, spec_call(self@.spmc_version, regs@)) {
                Some((spec_call(self@.spmc_version, regs@).fields.response->PowerPsci_0) as u64)
            } else {
                None
            }),
    {
        match decode_call(self.spmc_version, regs) {
            Ok(call) => {
                if call.kind == FfaKind::MsgSendDirectResp {
                    match (call.fields.endpoints, call.fields.response) {
                        (Some((src_id, dst_id)), DirectResponse::PowerPsci(status)) => {
                            if src_id == self.spmc_id && dst_id == OWN_ID {
                                Some(status as u64)
                            } else {
                                None
                            }
                        },
                        _ => None,
                    }
                } else {
                    None
                }
            },
            Err(_) => None,
        }
    }

    /// Writes the answer into a copy of the call's registers.
    fn reply(&self, out: &Option<FfaOut>, regs: &[u64; 18]) -> (r: SmcReturn)
        requires
            self.wf(),
            *out matches Some(o) ==> crate::services::ffa::can_write(self@.spmc_version, o, regs@),
        ensures
            r.wf(),
            r@ == reply_regs(self@.spmc_version, *out, regs@),
    {
        match out {
            Some(o) => {
                let mut values = *regs;
                write_ffa_out(self.spmc_version, o, &mut values);
                SmcReturn::from_slice(&values)
            },
            None => SmcReturn::empty(),
        }
    }
}

/// An SPM for the unit tests: it accepts every PSCI request.
pub struct TestSpm;

impl PsciSpmInterface for TestSpm {
    fn forward_psci_request(&self, psci_request: &[u64; 4]) -> u64 {
        0
    }

    fn notify_cpu_off(&self) {
    }
}

} // verus!
