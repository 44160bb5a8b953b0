//! The PSCI calling convention (Arm DEN 0022): the values a PSCI call carries in its registers,
//! and the decoding of a call from the registers of an SMC.
//!
//! The parameter types are decoded by the `arm_psci` crate; this module picks the registers that
//! each function takes its parameters from.

use vstd::prelude::*;

verus! {

/// PSCI_VERSION.
pub const PSCI_VERSION: u32 = 0x8400_0000;
/// CPU_SUSPEND, SMC32.
pub const CPU_SUSPEND_32: u32 = 0x8400_0001;
/// CPU_SUSPEND, SMC64.
pub const CPU_SUSPEND_64: u32 = 0xc400_0001;
/// CPU_OFF.
pub const CPU_OFF: u32 = 0x8400_0002;
/// CPU_ON, SMC32.
pub const CPU_ON_32: u32 = 0x8400_0003;
/// CPU_ON, SMC64.
pub const CPU_ON_64: u32 = 0xc400_0003;
/// AFFINITY_INFO, SMC32.
pub const AFFINITY_INFO_32: u32 = 0x8400_0004;
/// AFFINITY_INFO, SMC64.
pub const AFFINITY_INFO_64: u32 = 0xc400_0004;
/// MIGRATE, SMC32.
pub const MIGRATE_32: u32 = 0x8400_0005;
/// MIGRATE, SMC64.
pub const MIGRATE_64: u32 = 0xc400_0005;
/// MIGRATE_INFO_TYPE.
pub const MIGRATE_INFO_TYPE: u32 = 0x8400_0006;
/// MIGRATE_INFO_UP_CPU, SMC32.
pub const MIGRATE_INFO_UP_CPU_32: u32 = 0x8400_0007;
/// MIGRATE_INFO_UP_CPU, SMC64.
pub const MIGRATE_INFO_UP_CPU_64: u32 = 0xc400_0007;
/// SYSTEM_OFF.
pub const SYSTEM_OFF: u32 = 0x8400_0008;
/// SYSTEM_OFF2, SMC32.
pub const SYSTEM_OFF2_32: u32 = 0x8400_0015;
/// SYSTEM_OFF2, SMC64.
pub const SYSTEM_OFF2_64: u32 = 0xc400_0015;
/// SYSTEM_RESET.
pub const SYSTEM_RESET: u32 = 0x8400_0009;
/// SYSTEM_RESET2, SMC32.
pub const SYSTEM_RESET2_32: u32 = 0x8400_0012;
/// SYSTEM_RESET2, SMC64.
pub const SYSTEM_RESET2_64: u32 = 0xc400_0012;
/// MEM_PROTECT.
pub const MEM_PROTECT: u32 = 0x8400_0013;
/// MEM_PROTECT_CHECK_RANGE, SMC32.
pub const MEM_PROTECT_CHECK_RANGE_32: u32 = 0x8400_0014;
/// MEM_PROTECT_CHECK_RANGE, SMC64.
pub const MEM_PROTECT_CHECK_RANGE_64: u32 = 0xc400_0014;
/// PSCI_FEATURES.
pub const PSCI_FEATURES: u32 = 0x8400_000a;
/// CPU_FREEZE.
pub const CPU_FREEZE: u32 = 0x8400_000b;
/// CPU_DEFAULT_SUSPEND, SMC32.
pub const CPU_DEFAULT_SUSPEND_32: u32 = 0x8400_000c;
/// CPU_DEFAULT_SUSPEND, SMC64.
pub const CPU_DEFAULT_SUSPEND_64: u32 = 0xc400_000c;
/// NODE_HW_STATE, SMC32.
pub const NODE_HW_STATE_32: u32 = 0x8400_000d;
/// NODE_HW_STATE, SMC64.
pub const NODE_HW_STATE_64: u32 = 0xc400_000d;
/// SYSTEM_SUSPEND, SMC32.
pub const SYSTEM_SUSPEND_32: u32 = 0x8400_000e;
/// SYSTEM_SUSPEND, SMC64.
pub const SYSTEM_SUSPEND_64: u32 = 0xc400_000e;
/// PSCI_SET_SUSPEND_MODE.
pub const PSCI_SET_SUSPEND_MODE: u32 = 0x8400_000f;
/// PSCI_STAT_RESIDENCY, SMC32.
pub const PSCI_STAT_RESIDENCY_32: u32 = 0x8400_0010;
/// PSCI_STAT_RESIDENCY, SMC64.
pub const PSCI_STAT_RESIDENCY_64: u32 = 0xc400_0010;
/// PSCI_STAT_COUNT, SMC32.
pub const PSCI_STAT_COUNT_32: u32 = 0x8400_0011;
/// PSCI_STAT_COUNT, SMC64.
pub const PSCI_STAT_COUNT_64: u32 = 0xc400_0011;

/// The PSCI_FEATURES argument that asks for the SMCCC version feature.
pub const SMCCC_VERSION_FEATURE: u32 = 0x8000_0000;

/// Whether `id` is the function identifier of a PSCI function.
pub open spec fn is_psci_function_id(id: u32) -> bool {
    ||| PSCI_VERSION <= id <= SYSTEM_OFF2_32
    ||| id == CPU_SUSPEND_64 || id == CPU_ON_64 || id == AFFINITY_INFO_64 || id == MIGRATE_64
    ||| id == MIGRATE_INFO_UP_CPU_64 || id == SYSTEM_OFF2_64 || id == SYSTEM_RESET2_64
    ||| id == MEM_PROTECT_CHECK_RANGE_64 || id == CPU_DEFAULT_SUSPEND_64 || id == NODE_HW_STATE_64
    ||| id == SYSTEM_SUSPEND_64 || id == PSCI_STAT_RESIDENCY_64 || id == PSCI_STAT_COUNT_64
}

/// PSCI error codes.
#[derive(Clone, Copy, Debug, Eq, PartialEq, Structural)]
pub enum ErrorCode {
    /// The function is not supported.
    NotSupported,
    /// A parameter is invalid.
    InvalidParameters,
    /// The call is denied.
    Denied,
    /// The CPU is already on.
    AlreadyOn,
    /// A CPU_ON for the CPU is pending.
    OnPending,
    /// Internal failure.
    InternalFailure,
    /// The target is not present.
    NotPresent,
    /// The target is disabled.
    Disabled,
    /// The address is invalid.
    InvalidAddress,
}

impl ErrorCode {
    /// The number of the error code.
    pub open spec fn spec_code(self) -> i32 {
        match self {
            ErrorCode::NotSupported => -1i32,
            ErrorCode::InvalidParameters => -2i32,
            ErrorCode::Denied => -3i32,
            ErrorCode::AlreadyOn => -4i32,
            ErrorCode::OnPending => -5i32,
            ErrorCode::InternalFailure => -6i32,
            ErrorCode::NotPresent => -7i32,
            ErrorCode::Disabled => -8i32,
            ErrorCode::InvalidAddress => -9i32,
        }
    }

    /// Returns the number of the error code.
    pub fn code(self) -> (r: i32)
        ensures
            r == self.spec_code(),
    {
        match self {
            ErrorCode::NotSupported => -1,
            ErrorCode::InvalidParameters => -2,
            ErrorCode::Denied => -3,
            ErrorCode::AlreadyOn => -4,
            ErrorCode::OnPending => -5,
            ErrorCode::InternalFailure => -6,
            ErrorCode::NotPresent => -7,
            ErrorCode::Disabled => -8,
            ErrorCode::InvalidAddress => -9,
        }
    }
}

/// The power_state parameter of CPU_SUSPEND in the extended StateID format.
#[derive(Clone, Copy, Debug, Eq, PartialEq, Structural)]
pub enum PowerState {
    /// A standby or retention state, with its state ID.
    StandbyOrRetention(u32),
    /// A power down state, with its state ID.
    PowerDown(u32),
}

/// Bit 30 of a power_state parameter: the state type is power down.
pub const POWER_STATE_TYPE_PD_BIT: u32 = 0x4000_0000;
/// Bits [27:0] of a power_state parameter: the state ID.
pub const POWER_STATE_ID_MASK: u32 = 0x0fff_ffff;
/// The bits of a power_state parameter which must be zero.
pub const POWER_STATE_MBZ_BITS: u32 = 0xb000_0000;

/// The power state that a power_state parameter encodes, if it is well formed.
pub open spec fn spec_power_state(value: u32) -> Option<PowerState> {
    if value & POWER_STATE_MBZ_BITS != 0 {
        None
    } else if value & POWER_STATE_TYPE_PD_BIT != 0 {
        Some(PowerState::PowerDown(value & POWER_STATE_ID_MASK))
    } else {
        Some(PowerState::StandbyOrRetention(value & POWER_STATE_ID_MASK))
    }
}

/// The non-secure entry point of a CPU.
#[derive(Clone, Copy, Debug, Eq, PartialEq, Structural)]
pub enum EntryPoint {
    /// An AArch32 entry point.
    Entry32 {
        /// The entry point address.
        entry_point_address: u32,
        /// The context ID passed to the entry point.
        context_id: u32,
    },
    /// An AArch64 entry point.
    Entry64 {
        /// The entry point address.
        entry_point_address: u64,
        /// The context ID passed to the entry point.
        context_id: u64,
    },
}

impl EntryPoint {
    /// The entry point address.
    pub open spec fn spec_address(self) -> u64 {
        match self {
            EntryPoint::Entry32 { entry_point_address, .. } => entry_point_address as u64,
            EntryPoint::Entry64 { entry_point_address, .. } => entry_point_address,
        }
    }

    /// Returns the entry point address.
    pub fn entry_point_address(&self) -> (r: u64)
        ensures
            r == self.spec_address(),
    {
        match self {
            EntryPoint::Entry32 { entry_point_address, .. } => *entry_point_address as u64,
            EntryPoint::Entry64 { entry_point_address, .. } => *entry_point_address,
        }
    }

    /// Returns the context ID.
    pub fn context_id(&self) -> (r: u64)
        ensures
            r == match self {
                EntryPoint::Entry32 { context_id, .. } => *context_id as u64,
                EntryPoint::Entry64 { context_id, .. } => *context_id,
            },
    {
        match self {
            EntryPoint::Entry32 { context_id, .. } => *context_id as u64,
            EntryPoint::Entry64 { context_id, .. } => *context_id,
        }
    }
}

/// The affinity fields of an MPIDR value: Aff0-Aff2 for AArch32 callers, Aff0-Aff3 for AArch64
/// callers.
#[derive(Clone, Copy, Debug, Eq, PartialEq, Structural)]
pub struct Mpidr {
    /// Affinity level 0.
    pub aff0: u8,
    /// Affinity level 1.
    pub aff1: u8,
    /// Affinity level 2.
    pub aff2: u8,
    /// Affinity level 3, for AArch64 callers.
    pub aff3: Option<u8>,
}

/// The bits of a 32-bit MPIDR argument which must be zero.
pub const MPIDR_MBZ_BITS_32: u32 = 0xff00_0000;
/// The bits of a 64-bit MPIDR argument which must be zero.
pub const MPIDR_MBZ_BITS_64: u64 = 0xffff_ff00_ff00_0000;

/// The affinity fields of a 32-bit MPIDR argument, if it is well formed.
pub open spec fn spec_mpidr32(value: u32) -> Option<Mpidr> {
    if value & MPIDR_MBZ_BITS_32 != 0 {
        None
    } else {
        Some(Mpidr { aff0: value as u8, aff1: (value >> 8u32) as u8, aff2: (value >> 16u32) as u8, aff3: None })
    }
}

/// The affinity fields of a 64-bit MPIDR argument, if it is well formed.
pub open spec fn spec_mpidr64(value: u64) -> Option<Mpidr> {
    if value & MPIDR_MBZ_BITS_64 != 0 {
        None
    } else {
        Some(Mpidr {
            aff0: value as u8,
            aff1: (value >> 8u64) as u8,
            aff2: (value >> 16u64) as u8,
            aff3: Some((value >> 32u64) as u8),
        })
    }
}

impl Mpidr {
    /// Creates an MPIDR from the Aff3-Aff0 fields.
    pub fn from_aff3210(aff3: u8, aff2: u8, aff1: u8, aff0: u8) -> (r: Self)
        ensures
            r == (Mpidr { aff0, aff1, aff2, aff3: Some(aff3) }),
    {
        Mpidr { aff0, aff1, aff2, aff3: Some(aff3) }
    }

    /// Creates an MPIDR from the Aff2-Aff0 fields.
    pub fn from_aff210(aff2: u8, aff1: u8, aff0: u8) -> (r: Self)
        ensures
            r == (Mpidr { aff0, aff1, aff2, aff3: None }),
    {
        Mpidr { aff0, aff1, aff2, aff3: None }
    }

    /// The register value of the affinity fields, Aff3 as 0 where absent.
    pub open spec fn spec_value(self) -> u64 {
        let aff3: u64 = match self.aff3 {
            Some(a) => a as u64,
            None => 0,
        };
        (aff3 << 32u64) | ((self.aff2 as u64) << 16u64) | ((self.aff1 as u64) << 8u64) | (self.aff0 as u64)
    }

    /// Returns the register value of the affinity fields, Aff3 as 0 where absent.
    pub fn value(&self) -> (r: u64)
        ensures
            r == self.spec_value(),
    {
        let aff3: u64 = match self.aff3 {
            Some(a) => a as u64,
            None => 0,
        };
        (aff3 << 32u64) | ((self.aff2 as u64) << 16u64) | ((self.aff1 as u64) << 8u64) | (self.aff0 as u64)
    }
}

/// The affinity state of a CPU, as AFFINITY_INFO returns it.
#[derive(Clone, Copy, Debug, Eq, PartialEq, Structural)]
pub enum AffinityInfo {
    /// The CPU is on.
    On,
    /// The CPU is off.
    Off,
    /// A CPU_ON for the CPU is pending.
    OnPending,
}

impl AffinityInfo {
    /// The value AFFINITY_INFO returns for the state.
    pub open spec fn spec_value(self) -> u32 {
        match self {
            AffinityInfo::On => 0,
            AffinityInfo::Off => 1,
            AffinityInfo::OnPending => 2,
        }
    }

    /// Returns the value AFFINITY_INFO returns for the state.
    pub fn value(self) -> (r: u32)
        ensures
            r == self.spec_value(),
    {
        match self {
            AffinityInfo::On => 0,
            AffinityInfo::Off => 1,
            AffinityInfo::OnPending => 2,
        }
    }
}

/// The value MIGRATE_INFO_TYPE returns: migration is not required.
pub const MIGRATE_INFO_TYPE_NOT_REQUIRED: u64 = 2;

/// The SYSTEM_OFF2 type.
#[derive(Clone, Copy, Debug, Eq, PartialEq, Structural)]
pub enum SystemOff2Type {
    /// Hibernate off.
    HibernateOff,
}

/// An additional SYSTEM_OFF2 or SYSTEM_RESET2 parameter.
#[derive(Clone, Copy, Debug, Eq, PartialEq, Structural)]
pub enum Cookie {
    /// From an SMC32 call.
    Cookie32(u32),
    /// From an SMC64 call.
    Cookie64(u64),
}

/// The SYSTEM_RESET2 reset type.
#[derive(Clone, Copy, Debug, Eq, PartialEq, Structural)]
pub enum ResetType {
    /// The architectural system warm reset.
    SystemWarmReset,
    /// A vendor-specific reset, with its type number.
    VendorSpecific(u32),
}

/// Bit 31 of a reset type: the reset is vendor specific.
pub const RESET_TYPE_VENDOR_SPECIFIC_BIT: u32 = 0x8000_0000;

/// The reset type that a SYSTEM_RESET2 parameter encodes, if any.
pub open spec fn spec_reset_type(value: u32) -> Option<ResetType> {
    if value & RESET_TYPE_VENDOR_SPECIFIC_BIT == 0 {
        if value == 0 {
            Some(ResetType::SystemWarmReset)
        } else {
            None
        }
    } else {
        Some(ResetType::VendorSpecific(value & !RESET_TYPE_VENDOR_SPECIFIC_BIT))
    }
}

/// The MEM_PROTECT_CHECK_RANGE memory range.
#[derive(Clone, Copy, Debug, Eq, PartialEq, Structural)]
pub enum MemProtectRange {
    /// From an SMC32 call.
    Range32 {
        /// The base address.
        base: u32,
        /// The length.
        length: u32,
    },
    /// From an SMC64 call.
    Range64 {
        /// The base address.
        base: u64,
        /// The length.
        length: u64,
    },
}

/// The function that PSCI_FEATURES asks about.
#[derive(Clone, Copy, Debug, Eq, PartialEq, Structural)]
pub enum PsciFeature {
    /// A PSCI function, by its function identifier.
    PsciFunction(u32),
    /// The SMCCC version.
    SmcccVersion,
}

/// The PSCI_FEATURES argument that `value` encodes, if any.
pub open spec fn spec_psci_feature(value: u32) -> Option<PsciFeature> {
    if value == SMCCC_VERSION_FEATURE {
        Some(PsciFeature::SmcccVersion)
    } else if is_psci_function_id(value) {
        Some(PsciFeature::PsciFunction(value))
    } else {
        None
    }
}

/// The power state coordination mode of PSCI_SET_SUSPEND_MODE.
#[derive(Clone, Copy, Debug, Eq, PartialEq, Structural)]
pub enum SuspendMode {
    /// Platform-coordinated mode.
    PlatformCoordinated,
    /// OS-initiated mode.
    OsInitiated,
}

/// The hardware state of a power domain, as NODE_HW_STATE returns it.
#[derive(Clone, Copy, Debug, Eq, PartialEq, Structural)]
pub enum HwState {
    /// The domain is on.
    On,
    /// The domain is off.
    Off,
    /// The domain is in standby or retention.
    Standby,
}

impl HwState {
    /// The value NODE_HW_STATE returns for the state.
    pub open spec fn spec_value(self) -> u32 {
        match self {
            HwState::On => 0,
            HwState::Off => 1,
            HwState::Standby => 2,
        }
    }

    /// Returns the value NODE_HW_STATE returns for the state.
    pub fn value(self) -> (r: u32)
        ensures
            r == self.spec_value(),
    {
        match self {
            HwState::On => 0,
            HwState::Off => 1,
            HwState::Standby => 2,
        }
    }
}

/// A PSCI call and its parameters.
#[derive(Clone, Copy, Debug, Eq, PartialEq, Structural)]
pub enum PsciCall {
    /// PSCI_VERSION.
    Version,
    /// CPU_SUSPEND.
    CpuSuspend { state: PowerState, entry: EntryPoint },
    /// CPU_OFF.
    CpuOff,
    /// CPU_ON.
    CpuOn { target_cpu: Mpidr, entry: EntryPoint },
    /// AFFINITY_INFO.
    AffinityInfo { mpidr: Mpidr, lowest_affinity_level: u32 },
    /// MIGRATE.
    Migrate { target_affinity: Mpidr },
    /// MIGRATE_INFO_TYPE.
    MigrateInfoType,
    /// MIGRATE_INFO_UP_CPU.
    MigrateInfoUpCpu { is_32bit: bool },
    /// SYSTEM_OFF.
    SystemOff,
    /// SYSTEM_OFF2.
    SystemOff2 { off_type: SystemOff2Type, cookie: Cookie },
    /// SYSTEM_RESET.
    SystemReset,
    /// SYSTEM_RESET2.
    SystemReset2 { reset_type: ResetType, cookie: Cookie },
    /// MEM_PROTECT.
    MemProtect { enabled: bool },
    /// MEM_PROTECT_CHECK_RANGE.
    MemProtectCheckRange { range: MemProtectRange },
    /// PSCI_FEATURES.
    Features { psci_func_id: PsciFeature },
    /// CPU_FREEZE.
    CpuFreeze,
    /// CPU_DEFAULT_SUSPEND.
    CpuDefaultSuspend { entry: EntryPoint },
    /// NODE_HW_STATE.
    NodeHwState { target_cpu: Mpidr, power_level: u32 },
    /// SYSTEM_SUSPEND.
    SystemSuspend { entry: EntryPoint },
    /// PSCI_SET_SUSPEND_MODE.
    SetSuspendMode { mode: SuspendMode },
    /// PSCI_STAT_RESIDENCY.
    StatResidency { target_cpu: Mpidr, power_state: PowerState },
    /// PSCI_STAT_COUNT.
    StatCount { target_cpu: Mpidr, power_state: PowerState },
}

/// Returns whether `id` is the function identifier of a PSCI function.
#[verifier::external_body]
fn function_id_is_known(id: u32) -> (r: bool)
    ensures
        r == is_psci_function_id(id),
{
    arm_psci::FunctionId::try_from(id).is_ok()
}

/// Decodes a power_state parameter with `arm_psci::PowerState::try_from`.
#[verifier::external_body]
fn parse_power_state(value: u32) -> (r: Option<PowerState>)
    ensures
        r == spec_power_state(value),
{
    match arm_psci::PowerState::try_from(value) {
        Ok(arm_psci::PowerState::StandbyOrRetention(id)) => Some(PowerState::StandbyOrRetention(id)),
        Ok(arm_psci::PowerState::PowerDown(id)) => Some(PowerState::PowerDown(id)),
        Err(_) => None,
    }
}

/// Decodes a 32-bit MPIDR argument with `arm_psci::Mpidr::try_from`.
#[verifier::external_body]
fn parse_mpidr32(value: u32) -> (r: Option<Mpidr>)
    ensures
        r == spec_mpidr32(value),
{
    match arm_psci::Mpidr::try_from(value) {
        Ok(m) => Some(Mpidr { aff0: m.aff0, aff1: m.aff1, aff2: m.aff2, aff3: m.aff3 }),
        Err(_) => None,
    }
}

/// Decodes a 64-bit MPIDR argument with `arm_psci::Mpidr::try_from`.
#[verifier::external_body]
fn parse_mpidr64(value: u64) -> (r: Option<Mpidr>)
    ensures
        r == spec_mpidr64(value),
{
    match arm_psci::Mpidr::try_from(value) {
        Ok(m) => Some(Mpidr { aff0: m.aff0, aff1: m.aff1, aff2: m.aff2, aff3: m.aff3 }),
        Err(_) => None,
    }
}

/// Decodes a SYSTEM_RESET2 reset type with `arm_psci::ResetType::try_from`.
#[verifier::external_body]
fn parse_reset_type(value: u32) -> (r: Option<ResetType>)
    ensures
        r == spec_reset_type(value),
{
    match arm_psci::ResetType::try_from(value) {
        Ok(arm_psci::ResetType::Architectural(_)) => Some(ResetType::SystemWarmReset),
        Ok(arm_psci::ResetType::VendorSpecific(t)) => Some(ResetType::VendorSpecific(t)),
        Err(_) => None,
    }
}

/// Decodes a SYSTEM_OFF2 type with `arm_psci::SystemOff2Type::try_from`.
#[verifier::external_body]
fn parse_system_off2_type(value: u32) -> (r: Option<SystemOff2Type>)
    ensures
        r == (if value == 1 { Some(SystemOff2Type::HibernateOff) } else { None }),
{
    match arm_psci::SystemOff2Type::try_from(value) {
        Ok(arm_psci::SystemOff2Type::HibernateOff) => Some(SystemOff2Type::HibernateOff),
        Err(_) => None,
    }
}

/// Decodes a PSCI_SET_SUSPEND_MODE mode with `arm_psci::SuspendMode::try_from`.
#[verifier::external_body]
fn parse_suspend_mode(value: u32) -> (r: Option<SuspendMode>)
    ensures
        r == (if value == 0 {
            Some(SuspendMode::PlatformCoordinated)
        } else if value == 1 {
            Some(SuspendMode::OsInitiated)
        } else {
            None
        }),
{
    match arm_psci::SuspendMode::try_from(value) {
        Ok(arm_psci::SuspendMode::PlatformCoordinated) => Some(SuspendMode::PlatformCoordinated),
        Ok(arm_psci::SuspendMode::OsInitiated) => Some(SuspendMode::OsInitiated),
        Err(_) => None,
    }
}

/// Decodes a PSCI_FEATURES argument with `arm_psci::PsciFeature::try_from`.
#[verifier::external_body]
fn parse_psci_feature(value: u32) -> (r: Option<PsciFeature>)
    ensures
        r == spec_psci_feature(value),
{
    match arm_psci::PsciFeature::try_from(value) {
        Ok(arm_psci::PsciFeature::SmcccVersion) => Some(PsciFeature::SmcccVersion),
        Ok(arm_psci::PsciFeature::PsciFunction(f)) => Some(PsciFeature::PsciFunction(u32::from(f))),
        Err(_) => None,
    }
}

/// The entry point of an SMC32 call, from the given registers.
pub open spec fn entry32(address: u64, context_id: u64) -> EntryPoint {
    EntryPoint::Entry32 { entry_point_address: address as u32, context_id: context_id as u32 }
}

/// The entry point of an SMC64 call, from the given registers.
pub open spec fn entry64(address: u64, context_id: u64) -> EntryPoint {
    EntryPoint::Entry64 { entry_point_address: address, context_id }
}

/// A decoded parameter, or the error of the call whose parameter it is.
pub open spec fn param<T>(p: Option<T>) -> Result<T, ErrorCode> {
    match p {
        Some(v) => Ok(v),
        None => Err(ErrorCode::InvalidParameters),
    }
}

/// The PSCI call that the registers x0-x3 of an SMC carry: `NotSupported` for an unknown
/// function identifier, `InvalidParameters` for a malformed parameter.
pub open spec fn spec_decode(regs: Seq<u64>) -> Result<PsciCall, ErrorCode> {
    let id = regs[0] as u32;
    let (r1, r2, r3) = (regs[1], regs[2], regs[3]);
    if !is_psci_function_id(id) {
        Err(ErrorCode::NotSupported)
    } else if id == PSCI_VERSION {
        Ok(PsciCall::Version)
    } else if id == CPU_SUSPEND_32 || id == CPU_SUSPEND_64 {
        match spec_power_state(r1 as u32) {
            Some(state) => Ok(PsciCall::CpuSuspend {
                state,
                entry: if id == CPU_SUSPEND_32 { entry32(r2, r3) } else { entry64(r2, r3) },
            }),
            None => Err(ErrorCode::InvalidParameters),
        }
    } else if id == CPU_OFF {
        Ok(PsciCall::CpuOff)
    } else if id == CPU_ON_32 {
        match spec_mpidr32(r1 as u32) {
            Some(target_cpu) => Ok(PsciCall::CpuOn { target_cpu, entry: entry32(r2, r3) }),
            None => Err(ErrorCode::InvalidParameters),
        }
    } else if id == CPU_ON_64 {
        match spec_mpidr64(r1) {
            Some(target_cpu) => Ok(PsciCall::CpuOn { target_cpu, entry: entry64(r2, r3) }),
            None => Err(ErrorCode::InvalidParameters),
        }
    } else if id == AFFINITY_INFO_32 || id == AFFINITY_INFO_64 {
        let level = r2 as u32;
        let mpidr = if id == AFFINITY_INFO_32 { spec_mpidr32(r1 as u32) } else { spec_mpidr64(r1) };
        if level > (if id == AFFINITY_INFO_32 { 2u32 } else { 3u32 }) || mpidr is None {
            Err(ErrorCode::InvalidParameters)
        } else {
            Ok(PsciCall::AffinityInfo { mpidr: mpidr->0, lowest_affinity_level: level })
        }
    } else if id == MIGRATE_32 || id == MIGRATE_64 {
        match (if id == MIGRATE_32 { spec_mpidr32(r1 as u32) } else { spec_mpidr64(r1) }) {
            Some(target_affinity) => Ok(PsciCall::Migrate { target_affinity }),
            None => Err(ErrorCode::InvalidParameters),
        }
    } else if id == MIGRATE_INFO_TYPE {
        Ok(PsciCall::MigrateInfoType)
    } else if id == MIGRATE_INFO_UP_CPU_32 || id == MIGRATE_INFO_UP_CPU_64 {
        Ok(PsciCall::MigrateInfoUpCpu { is_32bit: id == MIGRATE_INFO_UP_CPU_32 })
    } else if id == SYSTEM_OFF {
        Ok(PsciCall::SystemOff)
    } else if id == SYSTEM_OFF2_32 || id == SYSTEM_OFF2_64 {
        if r1 as u32 == 1 {
            Ok(PsciCall::SystemOff2 {
                off_type: SystemOff2Type::HibernateOff,
                cookie: if id == SYSTEM_OFF2_32 { Cookie::Cookie32(r2 as u32) } else { Cookie::Cookie64(r2) },
            })
        } else {
            Err(ErrorCode::InvalidParameters)
        }
    } else if id == SYSTEM_RESET {
        Ok(PsciCall::SystemReset)
    } else if id == SYSTEM_RESET2_32 || id == SYSTEM_RESET2_64 {
        match spec_reset_type(r1 as u32) {
            Some(reset_type) => Ok(PsciCall::SystemReset2 {
                reset_type,
                cookie: if id == SYSTEM_RESET2_32 { Cookie::Cookie32(r2 as u32) } else { Cookie::Cookie64(r2) },
            }),
            None => Err(ErrorCode::InvalidParameters),
        }
    } else if id == MEM_PROTECT {
        Ok(PsciCall::MemProtect { enabled: r1 != 0 })
    } else if id == MEM_PROTECT_CHECK_RANGE_32 {
        Ok(PsciCall::MemProtectCheckRange { range: MemProtectRange::Range32 { base: r1 as u32, length: r2 as u32 } })
    } else if id == MEM_PROTECT_CHECK_RANGE_64 {
        Ok(PsciCall::MemProtectCheckRange { range: MemProtectRange::Range64 { base: r1, length: r2 } })
    } else if id == PSCI_FEATURES {
        match spec_psci_feature(r1 as u32) {
            Some(psci_func_id) => Ok(PsciCall::Features { psci_func_id }),
            None => Err(ErrorCode::NotSupported),
        }
    } else if id == CPU_FREEZE {
        Ok(PsciCall::CpuFreeze)
    } else if id == CPU_DEFAULT_SUSPEND_32 {
        Ok(PsciCall::CpuDefaultSuspend { entry: entry32(r1, r2) })
    } else if id == CPU_DEFAULT_SUSPEND_64 {
        Ok(PsciCall::CpuDefaultSuspend { entry: entry64(r1, r2) })
    } else if id == NODE_HW_STATE_32 || id == NODE_HW_STATE_64 {
        match (if id == NODE_HW_STATE_32 { spec_mpidr32(r1 as u32) } else { spec_mpidr64(r1) }) {
            Some(target_cpu) => Ok(PsciCall::NodeHwState { target_cpu, power_level: r2 as u32 }),
            None => Err(ErrorCode::InvalidParameters),
        }
    } else if id == SYSTEM_SUSPEND_32 {
        Ok(PsciCall::SystemSuspend { entry: entry32(r1, r2) })
    } else if id == SYSTEM_SUSPEND_64 {
        Ok(PsciCall::SystemSuspend { entry: entry64(r1, r2) })
    } else if id == PSCI_SET_SUSPEND_MODE {
        if r1 as u32 == 0 {
            Ok(PsciCall::SetSuspendMode { mode: SuspendMode::PlatformCoordinated })
        } else if r1 as u32 == 1 {
            Ok(PsciCall::SetSuspendMode { mode: SuspendMode::OsInitiated })
        } else {
            Err(ErrorCode::InvalidParameters)
        }
    } else {
        let is32 = id == PSCI_STAT_RESIDENCY_32 || id == PSCI_STAT_COUNT_32;
        let target = if is32 { spec_mpidr32(r1 as u32) } else { spec_mpidr64(r1) };
        let state = spec_power_state(r2 as u32);
        if target is None || state is None {
            Err(ErrorCode::InvalidParameters)
        } else if id == PSCI_STAT_RESIDENCY_32 || id == PSCI_STAT_RESIDENCY_64 {
            Ok(PsciCall::StatResidency { target_cpu: target->0, power_state: state->0 })
        } else {
            Ok(PsciCall::StatCount { target_cpu: target->0, power_state: state->0 })
        }
    }
}

/// Decodes the MPIDR argument of an SMC32 or SMC64 call.
fn parse_mpidr(value: u64, is32: bool) -> (r: Option<Mpidr>)
    ensures
        r == (if is32 { spec_mpidr32(value as u32) } else { spec_mpidr64(value) }),
{
    if is32 {
        parse_mpidr32(value as u32)
    } else {
        parse_mpidr64(value)
    }
}

/// Decodes the PSCI call that the registers x0-x3 of an SMC carry. Unknown function identifiers
/// give `NotSupported`, malformed parameters `InvalidParameters`.
pub fn decode_call(regs: &[u64; 4]) -> (r: Result<PsciCall, ErrorCode>)
    ensures
        r == spec_decode(regs@),
{
    let id = regs[0] as u32;
    let (r1, r2, r3) = (regs[1], regs[2], regs[3]);
    if !function_id_is_known(id) {
        Err(ErrorCode::NotSupported)
    } else if id == PSCI_VERSION {
        Ok(PsciCall::Version)
    } else if id == CPU_SUSPEND_32 || id == CPU_SUSPEND_64 {
        match parse_power_state(r1 as u32) {
            Some(state) => Ok(PsciCall::CpuSuspend {
                state,
                entry: if id == CPU_SUSPEND_32 {
                    EntryPoint::Entry32 { entry_point_address: r2 as u32, context_id: r3 as u32 }
                } else {
                    EntryPoint::Entry64 { entry_point_address: r2, context_id: r3 }
                },
            }),
            None => Err(ErrorCode::InvalidParameters),
        }
    } else if id == CPU_OFF {
        Ok(PsciCall::CpuOff)
    } else if id == CPU_ON_32 || id == CPU_ON_64 {
        match parse_mpidr(r1, id == CPU_ON_32) {
            Some(target_cpu) => Ok(PsciCall::CpuOn {
                target_cpu,
                entry: if id == CPU_ON_32 {
                    EntryPoint::Entry32 { entry_point_address: r2 as u32, context_id: r3 as u32 }
                } else {
                    EntryPoint::Entry64 { entry_point_address: r2, context_id: r3 }
                },
            }),
            None => Err(ErrorCode::InvalidParameters),
        }
    } else if id == AFFINITY_INFO_32 || id == AFFINITY_INFO_64 {
        let level = r2 as u32;
        let max_level: u32 = if id == AFFINITY_INFO_32 { 2 } else { 3 };
        if level > max_level {
            return Err(ErrorCode::InvalidParameters);
        }
        match parse_mpidr(r1, id == AFFINITY_INFO_32) {
            Some(mpidr) => Ok(PsciCall::AffinityInfo { mpidr, lowest_affinity_level: level }),
            None => Err(ErrorCode::InvalidParameters),
        }
    } else if id == MIGRATE_32 || id == MIGRATE_64 {
        match parse_mpidr(r1, id == MIGRATE_32) {
            Some(target_affinity) => Ok(PsciCall::Migrate { target_affinity }),
            None => Err(ErrorCode::InvalidParameters),
        }
    } else if id == MIGRATE_INFO_TYPE {
        Ok(PsciCall::MigrateInfoType)
    } else if id == MIGRATE_INFO_UP_CPU_32 || id == MIGRATE_INFO_UP_CPU_64 {
        Ok(PsciCall::MigrateInfoUpCpu { is_32bit: id == MIGRATE_INFO_UP_CPU_32 })
    } else if id == SYSTEM_OFF {
        Ok(PsciCall::SystemOff)
    } else if id == SYSTEM_OFF2_32 || id == SYSTEM_OFF2_64 {
        match parse_system_off2_type(r1 as u32) {
            Some(off_type) => Ok(PsciCall::SystemOff2 {
                off_type,
                cookie: if id == SYSTEM_OFF2_32 { Cookie::Cookie32(r2 as u32) } else { Cookie::Cookie64(r2) },
            }),
            None => Err(ErrorCode::InvalidParameters),
        }
    } else if id == SYSTEM_RESET {
        Ok(PsciCall::SystemReset)
    } else if id == SYSTEM_RESET2_32 || id == SYSTEM_RESET2_64 {
        match parse_reset_type(r1 as u32) {
            Some(reset_type) => Ok(PsciCall::SystemReset2 {
                reset_type,
                cookie: if id == SYSTEM_RESET2_32 { Cookie::Cookie32(r2 as u32) } else { Cookie::Cookie64(r2) },
            }),
            None => Err(ErrorCode::InvalidParameters),
        }
    } else if id == MEM_PROTECT {
        Ok(PsciCall::MemProtect { enabled: r1 != 0 })
    } else if id == MEM_PROTECT_CHECK_RANGE_32 {
        Ok(PsciCall::MemProtectCheckRange { range: MemProtectRange::Range32 { base: r1 as u32, length: r2 as u32 } })
    } else if id == MEM_PROTECT_CHECK_RANGE_64 {
        Ok(PsciCall::MemProtectCheckRange { range: MemProtectRange::Range64 { base: r1, length: r2 } })
    } else if id == PSCI_FEATURES {
        match parse_psci_feature(r1 as u32) {
            Some(psci_func_id) => Ok(PsciCall::Features { psci_func_id }),
            None => Err(ErrorCode::NotSupported),
        }
    } else if id == CPU_FREEZE {
        Ok(PsciCall::CpuFreeze)
    } else if id == CPU_DEFAULT_SUSPEND_32 {
        Ok(PsciCall::CpuDefaultSuspend { entry: EntryPoint::Entry32 { entry_point_address: r1 as u32, context_id: r2 as u32 } })
    } else if id == CPU_DEFAULT_SUSPEND_64 {
        Ok(PsciCall::CpuDefaultSuspend { entry: EntryPoint::Entry64 { entry_point_address: r1, context_id: r2 } })
    } else if id == NODE_HW_STATE_32 || id == NODE_HW_STATE_64 {
        match parse_mpidr(r1, id == NODE_HW_STATE_32) {
            Some(target_cpu) => Ok(PsciCall::NodeHwState { target_cpu, power_level: r2 as u32 }),
            None => Err(ErrorCode::InvalidParameters),
        }
    } else if id == SYSTEM_SUSPEND_32 {
        Ok(PsciCall::SystemSuspend { entry: EntryPoint::Entry32 { entry_point_address: r1 as u32, context_id: r2 as u32 } })
    } else if id == SYSTEM_SUSPEND_64 {
        Ok(PsciCall::SystemSuspend { entry: EntryPoint::Entry64 { entry_point_address: r1, context_id: r2 } })
    } else if id == PSCI_SET_SUSPEND_MODE {
        match parse_suspend_mode(r1 as u32) {
            Some(mode) => Ok(PsciCall::SetSuspendMode { mode }),
            None => Err(ErrorCode::InvalidParameters),
        }
    } else {
        let is32 = id == PSCI_STAT_RESIDENCY_32 || id == PSCI_STAT_COUNT_32;
        let target = parse_mpidr(r1, is32);
        let state = parse_power_state(r2 as u32);
        match (target, state) {
            (Some(target_cpu), Some(power_state)) => {
                if id == PSCI_STAT_RESIDENCY_32 || id == PSCI_STAT_RESIDENCY_64 {
                    Ok(PsciCall::StatResidency { target_cpu, power_state })
                } else {
                    Ok(PsciCall::StatCount { target_cpu, power_state })
                }
            },
            _ => Err(ErrorCode::InvalidParameters),
        }
    }
}

} // verus!
