//! Fixed Virtual Platform.

use crate::context::EntryPointInfo;
use crate::platform::{affinity, spec_affinity, Platform, MPIDR_MT};
use crate::services::arch::WorkaroundSupport;
use crate::services::psci::abi::{
    Cookie, EntryPoint, ErrorCode, HwState, MemProtectRange, Mpidr, PowerState, ResetType,
    SystemOff2Type,
};
use crate::services::psci::{
    is_valid_suspend, lemma_prefix_states, prefix_states,
    PlatformPowerStateInterface, PowerStateType, PsciCompositePowerState, PsciPlatformInterface,
    FEATURE_NODE_HW_STATE, FEATURE_SYSTEM_SUSPEND,
};
use crate::services::rmmd::manifest::{
    complex_sizes, le_word, list_checksum_holds, manifest_layout, page_with, with_list_item,
    ManifestListKind, RmmBootManifest, RmmConsoleInfo, RmmMemoryBank, PAGE_WORDS,
};
use vstd::prelude::*;

verus! {

/// The number of clusters of the FVP model.
pub const FVP_CLUSTER_COUNT: usize = 2;
/// The number of CPUs per cluster of the FVP model.
pub const FVP_MAX_CPUS_PER_CLUSTER: usize = 4;
/// The number of processing elements (threads) per CPU of the FVP model.
pub const FVP_MAX_PE_PER_CPU: usize = 1;

/// On the FVP, the cores are counted cluster by cluster: a CPU without the MT bit, in cluster
/// Aff1 (MPIDR bits 15:8) with core number Aff0 (bits 7:0), has the core position
/// Aff1 * FVP_MAX_CPUS_PER_CLUSTER + Aff0; with the MT bit, the cluster is Aff2 (bits 23:16), the
/// core Aff1 and the thread Aff0.
pub proof fn lemma_fvp_core_position_counts_clusters(mpidr: u64)
    ensures
        mpidr & 0x0100_0000 == 0 ==> Fvp::spec_core_position(mpidr) == ((mpidr >> 8u64) & 0xff)
            * FVP_MAX_CPUS_PER_CLUSTER + (mpidr & 0xff),
        mpidr & 0x0100_0000 != 0 ==> Fvp::spec_core_position(mpidr) == (((mpidr >> 16u64) & 0xff)
            * FVP_MAX_CPUS_PER_CLUSTER + ((mpidr >> 8u64) & 0xff)) * FVP_MAX_PE_PER_CPU + (mpidr & 0xff),
{
    assert(spec_affinity(mpidr, 0) == mpidr & 0xff) by {
        assert(mpidr >> 0u64 == mpidr) by (bit_vector);
    }
    assert(spec_affinity(mpidr, 1) == (mpidr >> 8u64) & 0xff);
    assert(spec_affinity(mpidr, 2) == (mpidr >> 16u64) & 0xff);
    assert(MPIDR_MT == 0x0100_0000);
}

/// Distinct FVP CPUs have distinct core positions: two MPIDRs without the MT bit whose core
/// numbers (Aff0) are below the number of CPUs per cluster, and that differ in their cluster
/// (Aff1) or core (Aff0), name different cores.
pub proof fn lemma_fvp_core_position_injective(a: u64, b: u64)
    requires
        a & 0x0100_0000 == 0,
        b & 0x0100_0000 == 0,
        a & 0xff < FVP_MAX_CPUS_PER_CLUSTER,
        b & 0xff < FVP_MAX_CPUS_PER_CLUSTER,
        (a >> 8u64) & 0xff != (b >> 8u64) & 0xff || a & 0xff != b & 0xff,
    ensures
        Fvp::spec_core_position(a) != Fvp::spec_core_position(b),
{
    lemma_fvp_core_position_counts_clusters(a);
    lemma_fvp_core_position_counts_clusters(b);
}

/// Fixed Virtual Platform.
pub struct Fvp;

impl Platform for Fvp {
    open spec fn spec_core_count() -> nat {
        (FVP_CLUSTER_COUNT * FVP_MAX_CPUS_PER_CLUSTER * FVP_MAX_PE_PER_CPU) as nat
    }

    open spec fn spec_mpidr_is_valid(mpidr: u64) -> bool {
        if mpidr & MPIDR_MT != 0 {
            &&& spec_affinity(mpidr, 3) == 0
            &&& spec_affinity(mpidr, 2) < FVP_CLUSTER_COUNT
            &&& spec_affinity(mpidr, 1) < FVP_MAX_CPUS_PER_CLUSTER
            &&& spec_affinity(mpidr, 0) < FVP_MAX_PE_PER_CPU
        } else {
            &&& spec_affinity(mpidr, 3) == 0
            &&& spec_affinity(mpidr, 2) == 0
            &&& spec_affinity(mpidr, 1) < FVP_CLUSTER_COUNT
            &&& spec_affinity(mpidr, 0) < FVP_MAX_CPUS_PER_CLUSTER
        }
    }

    /// ClusterId * FVP_MAX_CPUS_PER_CLUSTER * FVP_MAX_PE_PER_CPU + CPUId * FVP_MAX_PE_PER_CPU +
    /// ThreadId, where a value without the MT bit has no thread field.
    open spec fn spec_core_position(mpidr: u64) -> nat {
        if mpidr & MPIDR_MT != 0 {
            ((spec_affinity(mpidr, 2) * FVP_MAX_CPUS_PER_CLUSTER + spec_affinity(mpidr, 1)) * FVP_MAX_PE_PER_CPU
                + spec_affinity(mpidr, 0)) as nat
        } else {
            ((spec_affinity(mpidr, 1) * FVP_MAX_CPUS_PER_CLUSTER + spec_affinity(mpidr, 0)) * FVP_MAX_PE_PER_CPU) as nat
        }
    }

    proof fn lemma_core_position(mpidr: u64) {
    }

    fn core_count() -> (r: usize) {
        FVP_CLUSTER_COUNT * FVP_MAX_CPUS_PER_CLUSTER * FVP_MAX_PE_PER_CPU
    }

    fn mpidr_is_valid(mpidr: u64) -> (r: bool) {
        if mpidr & MPIDR_MT != 0 {
            affinity(mpidr, 3) == 0 && (affinity(mpidr, 2) as usize) < FVP_CLUSTER_COUNT
                && (affinity(mpidr, 1) as usize) < FVP_MAX_CPUS_PER_CLUSTER
                && (affinity(mpidr, 0) as usize) < FVP_MAX_PE_PER_CPU
        } else {
            affinity(mpidr, 3) == 0 && affinity(mpidr, 2) == 0
                && (affinity(mpidr, 1) as usize) < FVP_CLUSTER_COUNT
                && (affinity(mpidr, 0) as usize) < FVP_MAX_CPUS_PER_CLUSTER
        }
    }

    fn core_position(mpidr: u64) -> (r: usize) {
        if mpidr & MPIDR_MT != 0 {
            let a2 = affinity(mpidr, 2) as usize;
            let a1 = affinity(mpidr, 1) as usize;
            let a0 = affinity(mpidr, 0) as usize;
            (a2 * FVP_MAX_CPUS_PER_CLUSTER + a1) * FVP_MAX_PE_PER_CPU + a0
        } else {
            let a1 = affinity(mpidr, 1) as usize;
            let a0 = affinity(mpidr, 0) as usize;
            (a1 * FVP_MAX_CPUS_PER_CLUSTER + a0) * FVP_MAX_PE_PER_CPU
        }
    }
    open spec fn spec_arch_workaround_1_supported() -> WorkaroundSupport {
        WorkaroundSupport::SafeButNotRequired
    }

    open spec fn spec_arch_workaround_2_supported() -> WorkaroundSupport {
        WorkaroundSupport::SafeButNotRequired
    }

    open spec fn spec_arch_workaround_3_supported() -> WorkaroundSupport {
        WorkaroundSupport::SafeButNotRequired
    }

    open spec fn spec_arch_workaround_4_supported() -> WorkaroundSupport {
        WorkaroundSupport::SafeButNotRequired
    }

    fn arch_workaround_1_supported() -> (r: WorkaroundSupport) {
        WorkaroundSupport::SafeButNotRequired
    }

    fn arch_workaround_1() {
    }

    fn arch_workaround_2_supported() -> (r: WorkaroundSupport) {
        WorkaroundSupport::SafeButNotRequired
    }

    fn arch_workaround_2() {
    }

    fn arch_workaround_3_supported() -> (r: WorkaroundSupport) {
        WorkaroundSupport::SafeButNotRequired
    }

    fn arch_workaround_3() {
    }

    fn arch_workaround_4_supported() -> (r: WorkaroundSupport) {
        WorkaroundSupport::SafeButNotRequired
    }
}

/// The power states of the FVP power domains, from running to off.
#[derive(Clone, Copy, Debug, PartialEq, Eq, PartialOrd, Ord, Structural)]
pub enum FvpPowerState {
    /// Running.
    Run,
    /// Retention.
    Retention,
    /// Off.
    Off,
}

impl PlatformPowerStateInterface for FvpPowerState {
    open spec fn spec_depth(&self) -> nat {
        match self {
            FvpPowerState::Run => 0,
            FvpPowerState::Retention => 1,
            FvpPowerState::Off => 2,
        }
    }

    open spec fn spec_type(&self) -> PowerStateType {
        match self {
            FvpPowerState::Run => PowerStateType::Run,
            FvpPowerState::Retention => PowerStateType::StandbyOrRetention,
            FvpPowerState::Off => PowerStateType::PowerDown,
        }
    }

    open spec fn spec_off() -> Self {
        FvpPowerState::Off
    }

    open spec fn spec_run() -> Self {
        FvpPowerState::Run
    }

    proof fn lemma_power_state_order(a: Self, b: Self) {
    }

    fn off() -> (r: Self) {
        FvpPowerState::Off
    }

    fn run() -> (r: Self) {
        FvpPowerState::Run
    }

    fn power_state_type(&self) -> (r: PowerStateType) {
        match self {
            FvpPowerState::Run => PowerStateType::Run,
            FvpPowerState::Retention => PowerStateType::StandbyOrRetention,
            FvpPowerState::Off => PowerStateType::PowerDown,
        }
    }

    fn depth(&self) -> (r: usize) {
        match self {
            FvpPowerState::Run => 0,
            FvpPowerState::Retention => 1,
            FvpPowerState::Off => 2,
        }
    }
}

/// The highest power level of the FVP: the system.
pub const FVP_MAX_POWER_LEVEL: usize = 2;

/// The power level of the FVP clusters.
pub const FVP_CLUSTER_POWER_LEVEL: usize = 1;

/// The bits of a power state ID that give the state of each level, 4 bits per level.
pub const FVP_POWER_LEVEL_STATE_MASK: u32 = 0x0000_0fff;

/// The levels an FVP power state ID puts to a low state, and that state: the lowest `n` levels
/// to the state, the others running (the Recommended StateID Encoding of Arm DEN 0022).
pub open spec fn spec_fvp_power_state(power_state: PowerState) -> Option<(nat, FvpPowerState)> {
    match power_state {
        PowerState::StandbyOrRetention(id) => if id == 0x01 { Some((1nat, FvpPowerState::Retention)) } else { None },
        PowerState::PowerDown(id) => {
            let levels = id & FVP_POWER_LEVEL_STATE_MASK;
            if levels == 0x002 {
                Some((1nat, FvpPowerState::Off))
            } else if levels == 0x022 || levels == 0x222 {
                Some((2nat, FvpPowerState::Off))
            } else {
                None
            }
        },
    }
}

/// Converts an extended PSCI power state into the state of each FVP power level: CPU retention,
/// CPU off, or CPU and cluster off. The system level is never suspended through CPU_SUSPEND, so
/// a request for it to be off keeps it running.
pub fn fvp_try_parse_power_state(power_state: PowerState) -> (r: Option<PsciCompositePowerState<FvpPowerState>>)
    ensures
        match spec_fvp_power_state(power_state) {
            Some((n, low)) => r matches Some(s) && s.states@ == prefix_states(3, n, low, FvpPowerState::Run),
            None => r is None,
        },
        r matches Some(s) ==> s.states@.len() == FVP_MAX_POWER_LEVEL + 1 && is_valid_suspend(s.states@, power_state is PowerDown),
{
    let (n, low) = match power_state {
        PowerState::StandbyOrRetention(id) => {
            if id == 0x01 {
                (1usize, FvpPowerState::Retention)
            } else {
                return None;
            }
        },
        PowerState::PowerDown(id) => {
            let levels = id & FVP_POWER_LEVEL_STATE_MASK;
            if levels == 0x002 {
                (1usize, FvpPowerState::Off)
            } else if levels == 0x022 || levels == 0x222 {
                (2usize, FvpPowerState::Off)
            } else {
                return None;
            }
        },
    };
    proof { lemma_prefix_states::<FvpPowerState>(3, n as nat, low); }
    Some(PsciCompositePowerState::with_lower_levels(FVP_MAX_POWER_LEVEL, n, low))
}

/// Returns the FVP power domain topology in breadth-first order: one system node, its
/// clusters, and the CPUs of each cluster.
pub fn fvp_topology() -> (r: Vec<usize>)
    ensures
        r@ == seq![1usize, FVP_CLUSTER_COUNT, FVP_MAX_CPUS_PER_CLUSTER, FVP_MAX_CPUS_PER_CLUSTER],
{
    let mut topology: Vec<usize> = Vec::new();
    topology.push(1);
    topology.push(FVP_CLUSTER_COUNT);
    let mut i: usize = 0;
    while i < FVP_CLUSTER_COUNT
        invariant
            i <= FVP_CLUSTER_COUNT,
            topology@ == seq![1usize, FVP_CLUSTER_COUNT] + Seq::new(i as nat, |k: int| FVP_MAX_CPUS_PER_CLUSTER),
        decreases FVP_CLUSTER_COUNT - i,
    {
        topology.push(FVP_MAX_CPUS_PER_CLUSTER);
        i = i + 1;
        proof {
            assert(topology@ =~= seq![1usize, FVP_CLUSTER_COUNT] + Seq::new(i as nat, |k: int| FVP_MAX_CPUS_PER_CLUSTER));
        }
    }
    assert(topology@ =~= seq![1usize, FVP_CLUSTER_COUNT, FVP_MAX_CPUS_PER_CLUSTER, FVP_MAX_CPUS_PER_CLUSTER]);
    topology
}


/// The physical address of the SPMC manifest blob.
pub const TOS_FW_CONFIG_ADDRESS: u64 = 0x0400_1500;
/// The physical address of the normal world firmware configuration.
pub const NT_FW_CONFIG_ADDRESS: u64 = 0x8000_0000;
/// The physical address of the hardware configuration for the secure world.
pub const HW_CONFIG_ADDRESS: u64 = 0x07f0_0000;
/// The physical address of the hardware configuration for the normal world.
pub const HW_CONFIG_ADDRESS_NS: u64 = 0x8200_0000;
/// Version of the RMM boot interface.
pub const RMM_BOOT_VERSION: u64 = 0x4;
/// The start of the buffer shared between EL3 and the RMM.
pub const RMM_SHARED_BUFFER_START: usize = 0xffbf_f000;

/// SPSR for an entry at EL1 using SP_EL1 with D, A, I and F masked.
pub const SPSR_EL1H_DAIF: u64 = 0x3C5;
/// SPSR for an entry at EL2 using SP_EL2 with D, A, I and F masked.
pub const SPSR_EL2H_DAIF: u64 = 0x3C9;

/// The realm attestation key (ECC SECP384R1) of the platform.
pub const ATTESTION_KEY_ECC_SECP384R1: [u8; 48] = [
    0x20, 0x11, 0xC7, 0xF0, 0x3C, 0xEE, 0x43, 0x25, 0x17, 0x6E, 0x52, 0x4F, 0x03, 0x3C, 0x0C, 0xE1,
    0xE2, 0x1A, 0x76, 0xE6, 0xC1, 0xA4, 0xF0, 0xB8, 0x39, 0xAA, 0x1D, 0xF6, 0x1E, 0x0E, 0x8A, 0x5C,
    0x8A, 0x05, 0x74, 0x0F, 0x9B, 0x69, 0xEF, 0xA7, 0xEB, 0x1A, 0x41, 0x85, 0xBD, 0x11, 0x7F, 0x68,
];

/// The platform attestation token.
pub const ATTESTATION_TOKEN: [u8; 1518] = [
    0xd2, 0x84, 0x44, 0xa1, 0x01, 0x38, 0x22, 0xa0, 0x59, 0x05, 0x81, 0xa9, 0x19, 0x01, 0x09, 0x78,
    0x23, 0x74, 0x61, 0x67, 0x3a, 0x61, 0x72, 0x6d, 0x2e, 0x63, 0x6f, 0x6d, 0x2c, 0x32, 0x30, 0x32,
    0x33, 0x3a, 0x63, 0x63, 0x61, 0x5f, 0x70, 0x6c, 0x61, 0x74, 0x66, 0x6f, 0x72, 0x6d, 0x23, 0x31,
    0x2e, 0x30, 0x2e, 0x30, 0x0a, 0x58, 0x20, 0x0d, 0x22, 0xe0, 0x8a, 0x98, 0x46, 0x90, 0x58, 0x48,
    0x63, 0x18, 0x28, 0x34, 0x89, 0xbd, 0xb3, 0x6f, 0x09, 0xdb, 0xef, 0xeb, 0x18, 0x64, 0xdf, 0x43,
    0x3f, 0xa6, 0xe5, 0x4e, 0xa2, 0xd7, 0x11, 0x19, 0x09, 0x5c, 0x58, 0x20, 0x7f, 0x45, 0x4c, 0x46,
    0x02, 0x01, 0x01, 0x00, 0x00, 0x00, 0x00, 0x00, 0x00, 0x00, 0x00, 0x00, 0x03, 0x00, 0x3e, 0x00,
    0x01, 0x00, 0x00, 0x00, 0x50, 0x58, 0x00, 0x00, 0x00, 0x00, 0x00, 0x00, 0x19, 0x01, 0x00, 0x58,
    0x21, 0x01, 0x07, 0x06, 0x05, 0x04, 0x03, 0x02, 0x01, 0x00, 0x0f, 0x0e, 0x0d, 0x0c, 0x0b, 0x0a,
    0x09, 0x08, 0x17, 0x16, 0x15, 0x14, 0x13, 0x12, 0x11, 0x10, 0x1f, 0x1e, 0x1d, 0x1c, 0x1b, 0x1a,
    0x19, 0x18, 0x19, 0x09, 0x61, 0x44, 0xcf, 0xcf, 0xcf, 0xcf, 0x19, 0x09, 0x5b, 0x19, 0x30, 0x03,
    0x19, 0x09, 0x62, 0x67, 0x73, 0x68, 0x61, 0x2d, 0x32, 0x35, 0x36, 0x19, 0x09, 0x60, 0x78, 0x3a,
    0x68, 0x74, 0x74, 0x70, 0x73, 0x3a, 0x2f, 0x2f, 0x76, 0x65, 0x72, 0x61, 0x69, 0x73, 0x6f, 0x6e,
    0x2e, 0x65, 0x78, 0x61, 0x6d, 0x70, 0x6c, 0x65, 0x2f, 0x2e, 0x77, 0x65, 0x6c, 0x6c, 0x2d, 0x6b,
    0x6e, 0x6f, 0x77, 0x6e, 0x2f, 0x76, 0x65, 0x72, 0x61, 0x69, 0x73, 0x6f, 0x6e, 0x2f, 0x76, 0x65,
    0x72, 0x69, 0x66, 0x69, 0x63, 0x61, 0x74, 0x69, 0x6f, 0x6e, 0x19, 0x09, 0x5f, 0x8d, 0xa4, 0x01,
    0x69, 0x52, 0x53, 0x45, 0x5f, 0x42, 0x4c, 0x31, 0x5f, 0x32, 0x05, 0x58, 0x20, 0x53, 0x78, 0x79,
    0x63, 0x07, 0x53, 0x5d, 0xf3, 0xec, 0x8d, 0x8b, 0x15, 0xa2, 0xe2, 0xdc, 0x56, 0x41, 0x41, 0x9c,
    0x3d, 0x30, 0x60, 0xcf, 0xe3, 0x22, 0x38, 0xc0, 0xfa, 0x97, 0x3f, 0x7a, 0xa3, 0x02, 0x58, 0x20,
    0x9a, 0x27, 0x1f, 0x2a, 0x91, 0x6b, 0x0b, 0x6e, 0xe6, 0xce, 0xcb, 0x24, 0x26, 0xf0, 0xb3, 0x20,
    0x6e, 0xf0, 0x74, 0x57, 0x8b, 0xe5, 0x5d, 0x9b, 0xc9, 0x4f, 0x6f, 0x3f, 0xe3, 0xab, 0x86, 0xaa,
    0x06, 0x67, 0x73, 0x68, 0x61, 0x2d, 0x32, 0x35, 0x36, 0xa4, 0x01, 0x67, 0x52, 0x53, 0x45, 0x5f,
    0x42, 0x4c, 0x32, 0x05, 0x58, 0x20, 0x53, 0x78, 0x79, 0x63, 0x07, 0x53, 0x5d, 0xf3, 0xec, 0x8d,
    0x8b, 0x15, 0xa2, 0xe2, 0xdc, 0x56, 0x41, 0x41, 0x9c, 0x3d, 0x30, 0x60, 0xcf, 0xe3, 0x22, 0x38,
    0xc0, 0xfa, 0x97, 0x3f, 0x7a, 0xa3, 0x02, 0x58, 0x20, 0x53, 0xc2, 0x34, 0xe5, 0xe8, 0x47, 0x2b,
    0x6a, 0xc5, 0x1c, 0x1a, 0xe1, 0xca, 0xb3, 0xfe, 0x06, 0xfa, 0xd0, 0x53, 0xbe, 0xb8, 0xeb, 0xfd,
    0x89, 0x77, 0xb0, 0x10, 0x65, 0x5b, 0xfd, 0xd3, 0xc3, 0x06, 0x67, 0x73, 0x68, 0x61, 0x2d, 0x32,
    0x35, 0x36, 0xa4, 0x01, 0x65, 0x52, 0x53, 0x45, 0x5f, 0x53, 0x05, 0x58, 0x20, 0x53, 0x78, 0x79,
    0x63, 0x07, 0x53, 0x5d, 0xf3, 0xec, 0x8d, 0x8b, 0x15, 0xa2, 0xe2, 0xdc, 0x56, 0x41, 0x41, 0x9c,
    0x3d, 0x30, 0x60, 0xcf, 0xe3, 0x22, 0x38, 0xc0, 0xfa, 0x97, 0x3f, 0x7a, 0xa3, 0x02, 0x58, 0x20,
    0x11, 0x21, 0xcf, 0xcc, 0xd5, 0x91, 0x3f, 0x0a, 0x63, 0xfe, 0xc4, 0x0a, 0x6f, 0xfd, 0x44, 0xea,
    0x64, 0xf9, 0xdc, 0x13, 0x5c, 0x66, 0x63, 0x4b, 0xa0, 0x01, 0xd1, 0x0b, 0xcf, 0x43, 0x02, 0xa2,
    0x06, 0x67, 0x73, 0x68, 0x61, 0x2d, 0x32, 0x35, 0x36, 0xa4, 0x01, 0x66, 0x41, 0x50, 0x5f, 0x42,
    0x4c, 0x31, 0x05, 0x58, 0x20, 0x53, 0x78, 0x79, 0x63, 0x07, 0x53, 0x5d, 0xf3, 0xec, 0x8d, 0x8b,
    0x15, 0xa2, 0xe2, 0xdc, 0x56, 0x41, 0x41, 0x9c, 0x3d, 0x30, 0x60, 0xcf, 0xe3, 0x22, 0x38, 0xc0,
    0xfa, 0x97, 0x3f, 0x7a, 0xa3, 0x02, 0x58, 0x20, 0x15, 0x71, 0xb5, 0xec, 0x78, 0xbd, 0x68, 0x51,
    0x2b, 0xf7, 0x83, 0x0b, 0xb6, 0xa2, 0xa4, 0x4b, 0x20, 0x47, 0xc7, 0xdf, 0x57, 0xbc, 0xe7, 0x9e,
    0xb8, 0xa1, 0xc0, 0xe5, 0xbe, 0xa0, 0xa5, 0x01, 0x06, 0x67, 0x73, 0x68, 0x61, 0x2d, 0x32, 0x35,
    0x36, 0xa4, 0x01, 0x66, 0x41, 0x50, 0x5f, 0x42, 0x4c, 0x32, 0x05, 0x58, 0x20, 0x53, 0x78, 0x79,
    0x63, 0x07, 0x53, 0x5d, 0xf3, 0xec, 0x8d, 0x8b, 0x15, 0xa2, 0xe2, 0xdc, 0x56, 0x41, 0x41, 0x9c,
    0x3d, 0x30, 0x60, 0xcf, 0xe3, 0x22, 0x38, 0xc0, 0xfa, 0x97, 0x3f, 0x7a, 0xa3, 0x02, 0x58, 0x20,
    0x10, 0x15, 0x9b, 0xaf, 0x26, 0x2b, 0x43, 0xa9, 0x2d, 0x95, 0xdb, 0x59, 0xda, 0xe1, 0xf7, 0x2c,
    0x64, 0x51, 0x27, 0x30, 0x16, 0x61, 0xe0, 0xa3, 0xce, 0x4e, 0x38, 0xb2, 0x95, 0xa9, 0x7c, 0x58,
    0x06, 0x67, 0x73, 0x68, 0x61, 0x2d, 0x32, 0x35, 0x36, 0xa4, 0x01, 0x67, 0x53, 0x43, 0x50, 0x5f,
    0x42, 0x4c, 0x31, 0x05, 0x58, 0x20, 0x53, 0x78, 0x79, 0x63, 0x07, 0x53, 0x5d, 0xf3, 0xec, 0x8d,
    0x8b, 0x15, 0xa2, 0xe2, 0xdc, 0x56, 0x41, 0x41, 0x9c, 0x3d, 0x30, 0x60, 0xcf, 0xe3, 0x22, 0x38,
    0xc0, 0xfa, 0x97, 0x3f, 0x7a, 0xa3, 0x02, 0x58, 0x20, 0x10, 0x12, 0x2e, 0x85, 0x6b, 0x3f, 0xcd,
    0x49, 0xf0, 0x63, 0x63, 0x63, 0x17, 0x47, 0x61, 0x49, 0xcb, 0x73, 0x0a, 0x1a, 0xa1, 0xcf, 0xaa,
    0xd8, 0x18, 0x55, 0x2b, 0x72, 0xf5, 0x6d, 0x6f, 0x68, 0x06, 0x67, 0x73, 0x68, 0x61, 0x2d, 0x32,
    0x35, 0x36, 0xa4, 0x01, 0x67, 0x53, 0x43, 0x50, 0x5f, 0x42, 0x4c, 0x32, 0x05, 0x58, 0x20, 0xf1,
    0x4b, 0x49, 0x87, 0x90, 0x4b, 0xcb, 0x58, 0x14, 0xe4, 0x45, 0x9a, 0x05, 0x7e, 0xd4, 0xd2, 0x0f,
    0x58, 0xa6, 0x33, 0x15, 0x22, 0x88, 0xa7, 0x61, 0x21, 0x4d, 0xcd, 0x28, 0x78, 0x0b, 0x56, 0x02,
    0x58, 0x20, 0xaa, 0x67, 0xa1, 0x69, 0xb0, 0xbb, 0xa2, 0x17, 0xaa, 0x0a, 0xa8, 0x8a, 0x65, 0x34,
    0x69, 0x20, 0xc8, 0x4c, 0x42, 0x44, 0x7c, 0x36, 0xba, 0x5f, 0x7e, 0xa6, 0x5f, 0x42, 0x2c, 0x1f,
    0xe5, 0xd8, 0x06, 0x67, 0x73, 0x68, 0x61, 0x2d, 0x32, 0x35, 0x36, 0xa4, 0x01, 0x67, 0x41, 0x50,
    0x5f, 0x42, 0x4c, 0x33, 0x31, 0x05, 0x58, 0x20, 0x53, 0x78, 0x79, 0x63, 0x07, 0x53, 0x5d, 0xf3,
    0xec, 0x8d, 0x8b, 0x15, 0xa2, 0xe2, 0xdc, 0x56, 0x41, 0x41, 0x9c, 0x3d, 0x30, 0x60, 0xcf, 0xe3,
    0x22, 0x38, 0xc0, 0xfa, 0x97, 0x3f, 0x7a, 0xa3, 0x02, 0x58, 0x20, 0x2e, 0x6d, 0x31, 0xa5, 0x98,
    0x3a, 0x91, 0x25, 0x1b, 0xfa, 0xe5, 0xae, 0xfa, 0x1c, 0x0a, 0x19, 0xd8, 0xba, 0x3c, 0xf6, 0x01,
    0xd0, 0xe8, 0xa7, 0x06, 0xb4, 0xcf, 0xa9, 0x66, 0x1a, 0x6b, 0x8a, 0x06, 0x67, 0x73, 0x68, 0x61,
    0x2d, 0x32, 0x35, 0x36, 0xa4, 0x01, 0x63, 0x52, 0x4d, 0x4d, 0x05, 0x58, 0x20, 0x53, 0x78, 0x79,
    0x63, 0x07, 0x53, 0x5d, 0xf3, 0xec, 0x8d, 0x8b, 0x15, 0xa2, 0xe2, 0xdc, 0x56, 0x41, 0x41, 0x9c,
    0x3d, 0x30, 0x60, 0xcf, 0xe3, 0x22, 0x38, 0xc0, 0xfa, 0x97, 0x3f, 0x7a, 0xa3, 0x02, 0x58, 0x20,
    0xa1, 0xfb, 0x50, 0xe6, 0xc8, 0x6f, 0xae, 0x16, 0x79, 0xef, 0x33, 0x51, 0x29, 0x6f, 0xd6, 0x71,
    0x34, 0x11, 0xa0, 0x8c, 0xf8, 0xdd, 0x17, 0x90, 0xa4, 0xfd, 0x05, 0xfa, 0xe8, 0x68, 0x81, 0x64,
    0x06, 0x67, 0x73, 0x68, 0x61, 0x2d, 0x32, 0x35, 0x36, 0xa4, 0x01, 0x69, 0x48, 0x57, 0x5f, 0x43,
    0x4f, 0x4e, 0x46, 0x49, 0x47, 0x05, 0x58, 0x20, 0x53, 0x78, 0x79, 0x63, 0x07, 0x53, 0x5d, 0xf3,
    0xec, 0x8d, 0x8b, 0x15, 0xa2, 0xe2, 0xdc, 0x56, 0x41, 0x41, 0x9c, 0x3d, 0x30, 0x60, 0xcf, 0xe3,
    0x22, 0x38, 0xc0, 0xfa, 0x97, 0x3f, 0x7a, 0xa3, 0x02, 0x58, 0x20, 0x1a, 0x25, 0x24, 0x02, 0x97,
    0x2f, 0x60, 0x57, 0xfa, 0x53, 0xcc, 0x17, 0x2b, 0x52, 0xb9, 0xff, 0xca, 0x69, 0x8e, 0x18, 0x31,
    0x1f, 0xac, 0xd0, 0xf3, 0xb0, 0x6e, 0xca, 0xae, 0xf7, 0x9e, 0x17, 0x06, 0x67, 0x73, 0x68, 0x61,
    0x2d, 0x32, 0x35, 0x36, 0xa4, 0x01, 0x69, 0x46, 0x57, 0x5f, 0x43, 0x4f, 0x4e, 0x46, 0x49, 0x47,
    0x05, 0x58, 0x20, 0x53, 0x78, 0x79, 0x63, 0x07, 0x53, 0x5d, 0xf3, 0xec, 0x8d, 0x8b, 0x15, 0xa2,
    0xe2, 0xdc, 0x56, 0x41, 0x41, 0x9c, 0x3d, 0x30, 0x60, 0xcf, 0xe3, 0x22, 0x38, 0xc0, 0xfa, 0x97,
    0x3f, 0x7a, 0xa3, 0x02, 0x58, 0x20, 0x9a, 0x92, 0xad, 0xbc, 0x0c, 0xee, 0x38, 0xef, 0x65, 0x8c,
    0x71, 0xce, 0x1b, 0x1b, 0xf8, 0xc6, 0x56, 0x68, 0xf1, 0x66, 0xbf, 0xb2, 0x13, 0x64, 0x4c, 0x89,
    0x5c, 0xcb, 0x1a, 0xd0, 0x7a, 0x25, 0x06, 0x67, 0x73, 0x68, 0x61, 0x2d, 0x32, 0x35, 0x36, 0xa4,
    0x01, 0x6c, 0x54, 0x42, 0x5f, 0x46, 0x57, 0x5f, 0x43, 0x4f, 0x4e, 0x46, 0x49, 0x47, 0x05, 0x58,
    0x20, 0x53, 0x78, 0x79, 0x63, 0x07, 0x53, 0x5d, 0xf3, 0xec, 0x8d, 0x8b, 0x15, 0xa2, 0xe2, 0xdc,
    0x56, 0x41, 0x41, 0x9c, 0x3d, 0x30, 0x60, 0xcf, 0xe3, 0x22, 0x38, 0xc0, 0xfa, 0x97, 0x3f, 0x7a,
    0xa3, 0x02, 0x58, 0x20, 0x23, 0x89, 0x03, 0x18, 0x0c, 0xc1, 0x04, 0xec, 0x2c, 0x5d, 0x8b, 0x3f,
    0x20, 0xc5, 0xbc, 0x61, 0xb3, 0x89, 0xec, 0x0a, 0x96, 0x7d, 0xf8, 0xcc, 0x20, 0x8c, 0xdc, 0x7c,
    0xd4, 0x54, 0x17, 0x4f, 0x06, 0x67, 0x73, 0x68, 0x61, 0x2d, 0x32, 0x35, 0x36, 0xa4, 0x01, 0x6d,
    0x53, 0x4f, 0x43, 0x5f, 0x46, 0x57, 0x5f, 0x43, 0x4f, 0x4e, 0x46, 0x49, 0x47, 0x05, 0x58, 0x20,
    0x53, 0x78, 0x79, 0x63, 0x07, 0x53, 0x5d, 0xf3, 0xec, 0x8d, 0x8b, 0x15, 0xa2, 0xe2, 0xdc, 0x56,
    0x41, 0x41, 0x9c, 0x3d, 0x30, 0x60, 0xcf, 0xe3, 0x22, 0x38, 0xc0, 0xfa, 0x97, 0x3f, 0x7a, 0xa3,
    0x02, 0x58, 0x20, 0xe6, 0xc2, 0x1e, 0x8d, 0x26, 0x0f, 0xe7, 0x18, 0x82, 0xde, 0xbd, 0xb3, 0x39,
    0xd2, 0x40, 0x2a, 0x2c, 0xa7, 0x64, 0x85, 0x29, 0xbc, 0x23, 0x03, 0xf4, 0x86, 0x49, 0xbc, 0xe0,
    0x38, 0x00, 0x17, 0x06, 0x67, 0x73, 0x68, 0x61, 0x2d, 0x32, 0x35, 0x36, 0x58, 0x60, 0x31, 0xd0,
    0x4d, 0x52, 0xcc, 0xde, 0x95, 0x2c, 0x1e, 0x32, 0xcb, 0xa1, 0x81, 0x88, 0x5a, 0x40, 0xb8, 0xcc,
    0x38, 0xe0, 0x52, 0x8c, 0x1e, 0x89, 0x58, 0x98, 0x07, 0x64, 0x2a, 0xa5, 0xe3, 0xf2, 0xbc, 0x37,
    0xf9, 0x53, 0x74, 0x50, 0x6b, 0xff, 0x4d, 0x2e, 0x4b, 0xe7, 0x06, 0x3c, 0x4d, 0x72, 0x41, 0x92,
    0x70, 0xc7, 0x22, 0xe8, 0xd4, 0xd9, 0x3e, 0xe8, 0xb6, 0xc9, 0xfa, 0xce, 0x3b, 0x43, 0xc9, 0x76,
    0x1a, 0x49, 0x94, 0x1a, 0xb6, 0xf3, 0x8f, 0xfd, 0xff, 0x49, 0x6a, 0xd4, 0x63, 0xb4, 0xcb, 0xfa,
    0x11, 0xd8, 0x3e, 0x23, 0xe3, 0x1f, 0x7f, 0x62, 0x32, 0x9d, 0xe3, 0x0c, 0x1c, 0xc8,
];

/// Base of the V2M IOFPGA peripherals.
pub const V2M_IOFPGA_BASE: usize = 0x1c00_0000;
/// Size of the V2M IOFPGA peripherals region.
pub const V2M_IOFPGA_SIZE: usize = 0x0300_0000;
/// Base of the first device region.
pub const DEVICE0_BASE: usize = 0x2000_0000;
/// Size of the first device region.
pub const DEVICE0_SIZE: usize = 0x0c20_0000;
/// Base of the GIC device region: the distributor.
pub const DEVICE1_BASE: usize = 0x2f00_0000;
/// Size of the GIC device region: the distributor and one redistributor per core.
pub const DEVICE1_SIZE: usize = (0x2f10_0000 - 0x2f00_0000) + (FVP_CLUSTER_COUNT * FVP_MAX_CPUS_PER_CLUSTER
    * FVP_MAX_PE_PER_CPU * 0x2_0000);
/// Base of the third device region.
pub const DEVICE2_BASE: usize = 0x2a00_0000;
/// Size of the third device region.
pub const DEVICE2_SIZE: usize = 0x10000;

/// Whether the addresses `first..=last` lie in the region `[base, base + size)`.
pub open spec fn region_holds(base: int, size: int, first: int, last: int) -> bool {
    base <= first < base + size && base <= last < base + size
}

/// Whether a peripheral of `size` bytes at `pa` lies in one of the device regions that the page
/// table maps.
pub open spec fn spec_device_regions_include(pa: int, size: int) -> bool {
    let last = pa + size - 1;
    ||| region_holds(V2M_IOFPGA_BASE as int, V2M_IOFPGA_SIZE as int, pa, last)
    ||| region_holds(DEVICE0_BASE as int, DEVICE0_SIZE as int, pa, last)
    ||| region_holds(DEVICE1_BASE as int, DEVICE1_SIZE as int, pa, last)
    ||| region_holds(DEVICE2_BASE as int, DEVICE2_SIZE as int, pa, last)
}

/// Checks that a peripheral of `size` bytes at physical address `pa` lies, first byte to last,
/// in one of the device regions that the page table maps.
pub fn device_regions_include(pa: usize, size: usize) -> (r: bool)
    requires
        size >= 1,
        pa + size - 1 <= usize::MAX,
    ensures
        r == spec_device_regions_include(pa as int, size as int),
{
    let last = pa + (size - 1);
    let bases: [usize; 4] = [V2M_IOFPGA_BASE, DEVICE0_BASE, DEVICE1_BASE, DEVICE2_BASE];
    let sizes: [usize; 4] = [V2M_IOFPGA_SIZE, DEVICE0_SIZE, DEVICE1_SIZE, DEVICE2_SIZE];
    let mut i: usize = 0;
    while i < 4
        invariant
            i <= 4,
            last == pa + size - 1,
            bases@ == seq![V2M_IOFPGA_BASE, DEVICE0_BASE, DEVICE1_BASE, DEVICE2_BASE],
            sizes@ == seq![V2M_IOFPGA_SIZE, DEVICE0_SIZE, DEVICE1_SIZE, DEVICE2_SIZE],
            forall|j: int| 0 <= j < i ==> !region_holds(bases@[j] as int, sizes@[j] as int, pa as int, last as int),
        decreases 4 - i,
    {
        let base = bases[i];
        let end = base + sizes[i];
        if base <= pa && pa < end && base <= last && last < end {
            return true;
        }
        i += 1;
    }
    false
}

/// The name of the console told to the RMM, "pl011", NUL padded.
pub open spec fn console_name() -> Seq<u8> {
    seq![0x70u8, 0x6c, 0x30, 0x31, 0x31, 0x0, 0x0, 0x0]
}

/// The boot manifest page handed to the RMM: two DRAM banks (the non-secure DRAM below 4 GiB
/// from the non-trusted firmware configuration on, and 2 GiB at 34 GiB) and the PL011 console.
pub open spec fn fvp_manifest_page(base: u64) -> Seq<u64> {
    let fresh = page_with(manifest_layout(base, 2, 1, 0, 0, 0, Seq::empty()).0);
    let dram0 = with_list_item(
        fresh,
        base,
        ManifestListKind::Dram,
        0,
        seq![NT_FW_CONFIG_ADDRESS, 0x7c00_0000],
    );
    let dram1 = with_list_item(
        dram0,
        base,
        ManifestListKind::Dram,
        1,
        seq![0x0008_8000_0000, 0x0000_8000_0000],
    );
    with_list_item(
        dram1,
        base,
        ManifestListKind::Console,
        0,
        seq![0x1C09_0000, 0x1, le_word(console_name()), 0x00e1_0000, 0x1c200, 0],
    )
}

impl Fvp {
    /// Prepares the RMM boot manifest in the shared page at physical address `base`.
    pub fn rme_prepare_manifest(page: &mut [u64], base: u64)
        requires
            old(page)@.len() == PAGE_WORDS,
            base % 0x1000 == 0,
            base + 0x1000 <= u64::MAX,
        ensures
            final(page)@ == fvp_manifest_page(base),
            list_checksum_holds(final(page)@, base, ManifestListKind::Dram),
            list_checksum_holds(final(page)@, base, ManifestListKind::Console),
    {
        let no_complexes: Vec<Vec<usize>> = Vec::new();
        assert(complex_sizes(no_complexes@) =~= Seq::empty());
        RmmBootManifest::new(page, base, 2, 1, 0, 0, 0, no_complexes.as_slice());
        let bank0 = RmmMemoryBank { base: NT_FW_CONFIG_ADDRESS, size: 0x7c00_0000 };
        RmmBootManifest::write_list_item(page, base, ManifestListKind::Dram, 0, &bank0.words());
        let bank1 = RmmMemoryBank { base: 0x0008_8000_0000, size: 0x0000_8000_0000 };
        RmmBootManifest::write_list_item(page, base, ManifestListKind::Dram, 1, &bank1.words());
        let ghost dram_done = page@;
        let console = RmmConsoleInfo {
            base: 0x1C09_0000,
            map_pages: 0x1,
            name: [0x70, 0x6c, 0x30, 0x31, 0x31, 0x0, 0x0, 0x0],
            clk_in_hz: 0x00e1_0000,
            baud_rate: 0x1c200,
            flags: 0,
        };
        assert(console.name@ =~= console_name());
        RmmBootManifest::write_list_item(page, base, ManifestListKind::Console, 0, &console.words());
        assert(page@.subrange(21, 25) =~= dram_done.subrange(21, 25));
    }

    /// The entry point of the secure world (BL32) on the core with the given linear index: at
    /// S-EL1, with the SPMC manifest and hardware configuration addresses in x0-x1 and the core
    /// index in x4.
    pub fn secure_entry_point(core_linear_id: u64) -> (r: EntryPointInfo)
        ensures
            r.pc == 0x0600_0000,
            r.spsr == SPSR_EL1H_DAIF,
            r.args@ == seq![TOS_FW_CONFIG_ADDRESS, HW_CONFIG_ADDRESS, 0, 0, core_linear_id, 0, 0, 0],
    {
        let r = EntryPointInfo {
            pc: 0x0600_0000,
            spsr: SPSR_EL1H_DAIF,
            args: [TOS_FW_CONFIG_ADDRESS, HW_CONFIG_ADDRESS, 0, 0, core_linear_id, 0, 0, 0],
        };
        assert(r.args@ =~= seq![TOS_FW_CONFIG_ADDRESS, HW_CONFIG_ADDRESS, 0, 0, core_linear_id, 0, 0, 0]);
        r
    }

    /// The entry point of the normal world (BL33): at EL2, with the firmware and hardware
    /// configuration addresses in x0-x1.
    pub fn non_secure_entry_point() -> (r: EntryPointInfo)
        ensures
            r.pc == 0x8800_0000,
            r.spsr == SPSR_EL2H_DAIF,
            r.args@ == seq![NT_FW_CONFIG_ADDRESS, HW_CONFIG_ADDRESS_NS, 0, 0, 0, 0, 0, 0],
    {
        let r = EntryPointInfo {
            pc: 0x8800_0000,
            spsr: SPSR_EL2H_DAIF,
            args: [NT_FW_CONFIG_ADDRESS, HW_CONFIG_ADDRESS_NS, 0, 0, 0, 0, 0, 0],
        };
        assert(r.args@ =~= seq![NT_FW_CONFIG_ADDRESS, HW_CONFIG_ADDRESS_NS, 0, 0, 0, 0, 0, 0]);
        r
    }

    /// The entry point of the realm world (the RMM) on the core with the given linear index: at
    /// R-EL2, with the core index, the boot interface version, the core count and the shared
    /// buffer in x0-x3.
    pub fn realm_entry_point(core_linear_id: u64) -> (r: EntryPointInfo)
        ensures
            r.pc == 0xfdc0_0000,
            r.spsr == SPSR_EL2H_DAIF,
            r.args@ == seq![core_linear_id, RMM_BOOT_VERSION, Self::spec_core_count() as u64, RMM_SHARED_BUFFER_START as u64, 0, 0, 0, 0],
    {
        let core_count = Self::core_count() as u64;
        let r = EntryPointInfo {
            pc: 0xfdc0_0000,
            spsr: SPSR_EL2H_DAIF,
            args: [core_linear_id, RMM_BOOT_VERSION, core_count, RMM_SHARED_BUFFER_START as u64, 0, 0, 0, 0],
        };
        assert(r.args@ =~= seq![core_linear_id, RMM_BOOT_VERSION, Self::spec_core_count() as u64, RMM_SHARED_BUFFER_START as u64, 0, 0, 0, 0]);
        r
    }

    /// Writes the realm attestation key, from byte `start_index` on, to the start of `buf`:
    /// as many bytes as `buf` holds or the key has left. Fails if `start_index` is not an index of
    /// `buf`.
    pub fn write_attestion_key_ecc_secp384r1(buf: &mut [u8], start_index: usize) -> (r: Result<usize, ()>)
        requires
            start_index < old(buf)@.len() ==> start_index <= 48 && start_index + old(buf)@.len() <= usize::MAX,
        ensures
            start_index >= old(buf)@.len() ==> r is Err && final(buf)@ == old(buf)@,
            start_index < old(buf)@.len() ==> {
                let size = (if 48 < start_index + old(buf)@.len() { 48 } else { start_index + old(buf)@.len() }) - start_index;
                &&& r == Ok::<usize, ()>(size as usize)
                &&& final(buf)@ == ATTESTION_KEY_ECC_SECP384R1@.subrange(start_index as int, start_index + size)
                    + old(buf)@.subrange(size, old(buf)@.len() as int)
            },
    {
        if start_index >= buf.len() {
            return Err(());
        }

        let end = if 48 < start_index + buf.len() { 48 } else { start_index + buf.len() };
        let size = end - start_index;
        let ghost old_buf = buf@;
        let mut i: usize = 0;
        while i < size
            invariant
                i <= size,
                size <= old_buf.len(),
                start_index + size <= 48,
                buf@.len() == old_buf.len(),
                forall|j: int| 0 <= j < i ==> buf@[j] == ATTESTION_KEY_ECC_SECP384R1@[start_index + j],
                forall|j: int| i <= j < old_buf.len() ==> buf@[j] == old_buf[j],
            decreases size - i,
        {
            buf[i] = ATTESTION_KEY_ECC_SECP384R1[start_index + i];
            i = i + 1;
        }
        assert(buf@ =~= ATTESTION_KEY_ECC_SECP384R1@.subrange(start_index as int, start_index + size)
            + old_buf.subrange(size as int, old_buf.len() as int));
        Ok(size)
    }

    /// Writes the platform attestation token, from byte `start_index` on, to the start of `buf`:
    /// as many bytes as `buf` holds or the token has left. Returns the number written and the
    /// number left after them. Fails if `start_index` is not an index of `buf`.
    pub fn write_attestation_token(buf: &mut [u8], _hash: &[u8], start_index: usize) -> (r: Result<(usize, usize), ()>)
        requires
            start_index < old(buf)@.len() ==> start_index <= 1518,
        ensures
            start_index >= old(buf)@.len() ==> r is Err && final(buf)@ == old(buf)@,
            start_index < old(buf)@.len() ==> {
                let hunk = if old(buf)@.len() < 1518 - start_index { old(buf)@.len() as int } else { 1518 - start_index };
                &&& r == Ok::<(usize, usize), ()>((hunk as usize, (1518 - start_index - hunk) as usize))
                &&& final(buf)@ == ATTESTATION_TOKEN@.subrange(start_index as int, start_index + hunk)
                    + old(buf)@.subrange(hunk, old(buf)@.len() as int)
            },
    {
        if start_index >= buf.len() {
            return Err(());
        }

        let token_left = 1518 - start_index;
        let hunk_size = if buf.len() < token_left { buf.len() } else { token_left };
        let end_index = start_index + hunk_size;
        let ghost old_buf = buf@;
        let mut i: usize = 0;
        while i < hunk_size
            invariant
                i <= hunk_size,
                hunk_size <= old_buf.len(),
                start_index + hunk_size <= 1518,
                buf@.len() == old_buf.len(),
                forall|j: int| 0 <= j < i ==> buf@[j] == ATTESTATION_TOKEN@[start_index + j],
                forall|j: int| i <= j < old_buf.len() ==> buf@[j] == old_buf[j],
            decreases hunk_size - i,
        {
            buf[i] = ATTESTATION_TOKEN[start_index + i];
            i = i + 1;
        }
        assert(buf@ =~= ATTESTATION_TOKEN@.subrange(start_index as int, start_index + hunk_size)
            + old_buf.subrange(hunk_size as int, old_buf.len() as int));
        Ok((hunk_size, 1518 - end_index))
    }
}

/// The first address of the FVP's DRAM below 4 GiB.
pub const DRAM0_START: u64 = 0x00_8000_0000;
/// The last address of the FVP's DRAM below 4 GiB.
pub const DRAM0_LAST: u64 = 0x00_FFFF_FFFF;
/// The first address of the FVP's DRAM from 34 GiB on.
pub const DRAM1_START: u64 = 0x08_8000_0000;
/// The last address of the FVP's DRAM from 34 GiB on.
pub const DRAM1_LAST: u64 = 0x0F_FFFF_FFFF;

/// The affinity levels that the FVP power controller reports the state of, for a core.
#[derive(Clone, Copy, Debug, Eq, PartialEq, Structural)]
pub enum FvpAffinityStatus {
    /// The core itself.
    L0,
    /// Its cluster, where cores are not multi-threaded.
    L1,
    /// Its cluster, where cores are multi-threaded.
    L2,
}

/// The hardware that the FVP's PSCI implementation drives: its power controller, its GIC, its
/// generic timer and the current core. Cores are named by their MPIDR as the power controller
/// takes them, 32 bits wide.
pub trait FvpPowerHardware {
    /// MPIDR_EL1 of the current core.
    fn current_mpidr(&self) -> u32;
    /// Waits for an interrupt, after a barrier, in standby.
    fn standby_wfi(&self);
    /// Lets interrupts wake up the core.
    fn enable_wakeup_requests(&self, mpidr: u32);
    /// Stops interrupts from waking up the core.
    fn disable_wakeup_requests(&self, mpidr: u32);
    /// Requests the core's cluster to be turned off.
    fn power_off_cluster(&self, mpidr: u32);
    /// Requests the core to be turned off.
    fn power_off_processor(&self, mpidr: u32);
    /// Waits until no power off of the core is in flight.
    fn wait_for_processor_off(&self, mpidr: u32);
    /// Turns the core on, or clears a pending power off of its cluster.
    fn power_on_processor(&self, mpidr: u32);
    /// Whether the power controller reports the affinity level of the core on.
    fn affinity_on(&self, mpidr: u32, level: FvpAffinityStatus) -> bool;
    /// Disables the GIC CPU interface of the current core.
    fn gic_cpu_interface_disable(&self);
    /// Enables the GIC CPU interface of the current core.
    fn gic_cpu_interface_enable(&self);
    /// Turns off the GIC redistributor of the current core.
    fn gic_redistributor_off(&self);
    /// Initialises the GIC redistributor of the current core.
    fn gic_redistributor_init(&self);
    /// Saves the GIC distributor and redistributor state before the system powers down.
    fn save_system_power_domain(&self);
    /// Restores the GIC state after the system powered down.
    fn restore_system_power_domain(&self);
    /// Sets the counter frequency of the current core from the system timer's base frequency.
    fn set_counter_frequency(&self);
    /// Whether the current core has interrupts pending.
    fn has_pending_interrupts(&self) -> bool;
}

/// The steps that the FVP takes to suspend or turn off the current core, for the state of each
/// level: whether the core powers down, with its cluster, and with the whole system.
#[derive(Clone, Copy, Debug, Eq, PartialEq, Structural)]
pub struct FvpPowerDownPlan {
    /// The core powers down; otherwise it only retains its state.
    pub processor_off: bool,
    /// Its cluster powers down too.
    pub cluster_off: bool,
    /// The system powers down too: the GIC state is saved first, and restored on the way up.
    pub system_off: bool,
}

/// The power down steps of the states of the three FVP levels.
pub open spec fn spec_power_down_plan(states: Seq<FvpPowerState>) -> FvpPowerDownPlan {
    FvpPowerDownPlan {
        processor_off: states[0] == FvpPowerState::Off,
        cluster_off: states[0] == FvpPowerState::Off && states[FVP_CLUSTER_POWER_LEVEL as int] == FvpPowerState::Off,
        system_off: states[0] == FvpPowerState::Off && states.last() == FvpPowerState::Off,
    }
}

/// Returns the power down steps of the states of the three FVP levels.
pub fn fvp_power_down_plan(state: &PsciCompositePowerState<FvpPowerState>) -> (r: FvpPowerDownPlan)
    requires
        state.states@.len() == FVP_MAX_POWER_LEVEL + 1,
    ensures
        r == spec_power_down_plan(state.states@),
{
    let processor_off = state.cpu_level_state() == FvpPowerState::Off;
    FvpPowerDownPlan {
        processor_off,
        cluster_off: processor_off && state.states[FVP_CLUSTER_POWER_LEVEL] == FvpPowerState::Off,
        system_off: processor_off && state.highest_level_state() == FvpPowerState::Off,
    }
}

/// The MT bit of MPIDR_EL1: the affinity levels are shifted up, threads at level 0.
pub const MPIDR_MT_BIT: u32 = 0x0100_0000;

/// The affinity level whose state the power controller reports for a power level of a core:
/// the core for level 0; its cluster for level 1, at affinity level 1 unless the MT bit is set
/// in MPIDR_EL1 of the current core (`local_mpidr`), at level 2 if it is. `None` for any other
/// level.
pub open spec fn spec_status_level(local_mpidr: u32, power_level: u32) -> Option<FvpAffinityStatus> {
    if power_level == 0 {
        Some(FvpAffinityStatus::L0)
    } else if power_level == FVP_CLUSTER_POWER_LEVEL {
        if local_mpidr & MPIDR_MT_BIT == 0 {
            Some(FvpAffinityStatus::L1)
        } else {
            Some(FvpAffinityStatus::L2)
        }
    } else {
        None
    }
}

/// Returns the affinity level whose state the power controller reports for a power level.
pub fn fvp_status_level(local_mpidr: u32, power_level: u32) -> (r: Option<FvpAffinityStatus>)
    ensures
        r == spec_status_level(local_mpidr, power_level),
{
    if power_level == 0 {
        Some(FvpAffinityStatus::L0)
    } else if power_level == FVP_CLUSTER_POWER_LEVEL as u32 {
        if local_mpidr & MPIDR_MT_BIT == 0 {
            Some(FvpAffinityStatus::L1)
        } else {
            Some(FvpAffinityStatus::L2)
        }
    } else {
        None
    }
}

/// The 32-bit MPIDR of a PSCI MPIDR argument, which has no room for a nonzero affinity level 3.
pub open spec fn spec_raw_mpidr(mpidr: Mpidr) -> Option<u32> {
    match mpidr.aff3 {
        Some(aff3) => if aff3 != 0 {
            None
        } else {
            Some(((mpidr.aff2 as u32) << 16u32) | ((mpidr.aff1 as u32) << 8u32) | (mpidr.aff0 as u32))
        },
        None => Some(((mpidr.aff2 as u32) << 16u32) | ((mpidr.aff1 as u32) << 8u32) | (mpidr.aff0 as u32)),
    }
}

/// Returns the 32-bit MPIDR of a PSCI MPIDR argument; invalid parameters where its affinity level
/// 3 is nonzero.
pub fn fvp_raw_mpidr(mpidr: Mpidr) -> (r: Result<u32, ErrorCode>)
    ensures
        match spec_raw_mpidr(mpidr) {
            Some(raw) => r == Ok::<u32, ErrorCode>(raw),
            None => r == Err::<u32, ErrorCode>(ErrorCode::InvalidParameters),
        },
{
    match mpidr.aff3 {
        Some(aff3) => if aff3 != 0 {
            return Err(ErrorCode::InvalidParameters);
        },
        None => {},
    }
    Ok(((mpidr.aff2 as u32) << 16u32) | ((mpidr.aff1 as u32) << 8u32) | (mpidr.aff0 as u32))
}

/// The FVP's PSCI implementation: retention at the core level, power down of the core, its
/// cluster and the system, with the hardware driven through `H`.
pub struct FvpPsciPlatformImpl<H: FvpPowerHardware> {
    /// The hardware.
    pub hardware: H,
}

impl<H: FvpPowerHardware> FvpPsciPlatformImpl<H> {
    /// The steps common to a core coming up from a power down: clearing a pending cluster power
    /// off, restoring the system state, disabling wake-up requests and setting the counter
    /// frequency.
    fn power_domain_on_finish_common(&self, plan: FvpPowerDownPlan) {
        let mpidr = self.hardware.current_mpidr();
        if plan.cluster_off {
            self.hardware.power_on_processor(mpidr);
        }
        if plan.system_off {
            self.hardware.restore_system_power_domain();
        }
        self.hardware.disable_wakeup_requests(mpidr);
        self.hardware.set_counter_frequency();
    }
}

impl<H: FvpPowerHardware> PsciPlatformInterface for FvpPsciPlatformImpl<H> {
    type PlatformPowerState = FvpPowerState;

    open spec fn spec_max_power_level() -> nat {
        FVP_MAX_POWER_LEVEL as nat
    }

    open spec fn spec_features() -> u64 {
        FEATURE_NODE_HW_STATE | FEATURE_SYSTEM_SUSPEND
    }

    fn max_power_level() -> (r: usize) {
        FVP_MAX_POWER_LEVEL
    }

    fn features() -> (r: u64) {
        FEATURE_NODE_HW_STATE | FEATURE_SYSTEM_SUSPEND
    }

    open spec fn spec_topology() -> Seq<usize> {
        seq![1usize, FVP_CLUSTER_COUNT, FVP_MAX_CPUS_PER_CLUSTER, FVP_MAX_CPUS_PER_CLUSTER]
    }

    fn topology() -> (r: Vec<usize>) {
        fvp_topology()
    }

    open spec fn spec_parse_power_state(power_state: PowerState) -> Option<Seq<FvpPowerState>> {
        match spec_fvp_power_state(power_state) {
            Some((n, low)) => Some(prefix_states(3, n, low, FvpPowerState::Run)),
            None => None,
        }
    }

    fn try_parse_power_state(power_state: PowerState) -> (r: Option<PsciCompositePowerState<FvpPowerState>>) {
        fvp_try_parse_power_state(power_state)
    }

    fn cpu_standby(&self, cpu_state: FvpPowerState) {
        if cpu_state == FvpPowerState::Retention {
            self.hardware.standby_wfi();
        }
    }

    fn power_domain_suspend(&self, target_state: &PsciCompositePowerState<FvpPowerState>) {
        if target_state.states.len() != FVP_MAX_POWER_LEVEL + 1 {
            return;
        }
        let plan = fvp_power_down_plan(target_state);
        // Retention at the core level needs nothing of the power controller.
        if !plan.processor_off {
            return;
        }
        let mpidr = self.hardware.current_mpidr();
        self.hardware.enable_wakeup_requests(mpidr);
        // Keep interrupts from waking up the core spuriously; the redistributor stays on so that
        // wake-up events reach the CPU interface.
        self.hardware.gic_cpu_interface_disable();
        if plan.cluster_off {
            self.hardware.power_off_cluster(mpidr);
        }
        if plan.system_off {
            self.hardware.save_system_power_domain();
        }
        self.hardware.power_off_processor(mpidr);
    }

    fn power_domain_suspend_finish(&self, previous_state: &PsciCompositePowerState<FvpPowerState>) {
        if previous_state.states.len() != FVP_MAX_POWER_LEVEL + 1 {
            return;
        }
        let plan = fvp_power_down_plan(previous_state);
        if !plan.processor_off {
            return;
        }
        self.power_domain_on_finish_common(plan);
        self.hardware.gic_cpu_interface_enable();
    }

    fn power_domain_off_early(&self, target_state: &PsciCompositePowerState<FvpPowerState>) -> Result<(), ErrorCode> {
        Ok(())
    }

    fn power_domain_off(&self, target_state: &PsciCompositePowerState<FvpPowerState>) {
        if target_state.states.len() != FVP_MAX_POWER_LEVEL + 1 {
            return;
        }
        let plan = fvp_power_down_plan(target_state);
        if !plan.processor_off {
            return;
        }
        self.hardware.gic_cpu_interface_disable();
        self.hardware.gic_redistributor_off();
        let mpidr = self.hardware.current_mpidr();
        self.hardware.power_off_processor(mpidr);
        if plan.cluster_off {
            self.hardware.power_off_cluster(mpidr);
        }
    }

    fn power_domain_on(&self, mpidr: Mpidr) -> Result<(), ErrorCode> {
        let raw = fvp_raw_mpidr(mpidr)?;
        // Do not cancel a power off of the core in flight, which would leave it in a zombie WFI.
        self.hardware.wait_for_processor_off(raw);
        self.hardware.power_on_processor(raw);
        Ok(())
    }

    fn power_domain_on_finish(&self, previous_state: &PsciCompositePowerState<FvpPowerState>) {
        if previous_state.states.len() != FVP_MAX_POWER_LEVEL + 1 {
            return;
        }
        let plan = fvp_power_down_plan(previous_state);
        self.power_domain_on_finish_common(plan);
        self.hardware.gic_redistributor_init();
        self.hardware.gic_cpu_interface_enable();
    }

    fn system_off2(&self, off_type: SystemOff2Type, cookie: Cookie) -> Result<(), ErrorCode> {
        Err(ErrorCode::NotSupported)
    }

    fn system_reset2(&self, reset_type: ResetType, cookie: Cookie) -> Result<(), ErrorCode> {
        Err(ErrorCode::NotSupported)
    }

    fn mem_protect(&self, enabled: bool) -> Result<bool, ErrorCode> {
        Err(ErrorCode::NotSupported)
    }

    fn mem_protect_check_range(&self, range: MemProtectRange) -> Result<(), ErrorCode> {
        Err(ErrorCode::NotSupported)
    }

    fn cpu_default_suspend_power_state(&self) -> (r: PowerState) {
        // CPU_DEFAULT_SUSPEND is not among the FVP's features, so this is never asked for; the
        // core retention state is the natural default.
        PowerState::StandbyOrRetention(0x01)
    }

    fn node_hw_state(&self, mpidr: Mpidr, power_level: u32) -> Result<HwState, ErrorCode> {
        let raw = fvp_raw_mpidr(mpidr)?;
        match fvp_status_level(self.hardware.current_mpidr(), power_level) {
            Some(level) => if self.hardware.affinity_on(raw, level) {
                Ok(HwState::On)
            } else {
                Ok(HwState::Off)
            },
            None => Err(ErrorCode::InvalidParameters),
        }
    }

    fn sys_suspend_power_state(&self) -> (r: PsciCompositePowerState<FvpPowerState>) {
        proof {
            lemma_prefix_states::<FvpPowerState>(3, 3, FvpPowerState::Off);
        }
        PsciCompositePowerState::with_lower_levels(FVP_MAX_POWER_LEVEL, 3, FvpPowerState::Off)
    }

    open spec fn spec_is_valid_ns_entrypoint(&self, entry: EntryPoint) -> bool {
        let address = entry.spec_address();
        (DRAM0_START <= address <= DRAM0_LAST) || (DRAM1_START <= address <= DRAM1_LAST)
    }

    fn is_valid_ns_entrypoint(&self, entry: &EntryPoint) -> (r: bool) {
        let address = entry.entry_point_address();
        (DRAM0_START <= address && address <= DRAM0_LAST) || (DRAM1_START <= address && address
            <= DRAM1_LAST)
    }

    fn has_pending_interrupts(&self) -> bool {
        self.hardware.has_pending_interrupts()
    }
}

} // verus!
