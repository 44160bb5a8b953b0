//! Architectural CPU extensions: how each one configures the EL3 registers of a world (the
//! per-world CPTR_EL3 and MPAM3_EL3, and the per-core SCR_EL3 and MDCR_EL3 of each context) so
//! that the lower ELs can use it. Whether an extension is present, its one-time EL3 setup and the
//! saving and restoring of its registers are done on the hardware.

use crate::context::{CpuContext, El3State, World};
use vstd::prelude::*;

verus! {

/// CPTR_EL3.EZ: SVE is not trapped.
pub const CPTR_EZ: u64 = 1 << 8;
/// CPTR_EL3.TFP: FP/SIMD accesses are trapped.
pub const CPTR_TFP: u64 = 1 << 10;
/// MPAM3_EL3.MPAMEN: MPAM is enabled.
pub const MPAM3_MPAMEN: u64 = 1 << 63;
/// SCR_EL3.ATA: allocation tags can be accessed.
pub const SCR_ATA: u64 = 1 << 26;
/// SCR_EL3.HXEn: HCRX_EL2 can be accessed.
pub const SCR_HXEN: u64 = 1 << 38;
/// SCR_EL3.TCR2En: TCR2_ELx can be accessed.
pub const SCR_TCR2EN: u64 = 1 << 43;
/// SCR_EL3.FGTEn2: the second set of fine-grained traps can be accessed.
pub const SCR_FGTEN2: u64 = 1 << 59;
/// MDCR_EL3.TPM: Performance Monitors accesses are trapped.
pub const MDCR_TPM: u64 = 1 << 6;
/// MDCR_EL3.EnPM2: PMUv3p9 register accesses are not trapped.
pub const MDCR_ENPM2: u64 = 1 << 7;
/// MDCR_EL3.NSPBE: the profiling buffer uses non-secure addresses.
pub const MDCR_NSPBE: u64 = 1 << 11;
/// MDCR_EL3.NSPB, value for: the profiling buffer is enabled in non-secure state.
pub const MDCR_NSPB_NS: u64 = 0b11 << 12;
/// MDCR_EL3.SPME: event counting is allowed in secure state.
pub const MDCR_SPME: u64 = 1 << 17;
/// MDCR_EL3.TTRF: trace filter control accesses are trapped.
pub const MDCR_TTRF: u64 = 1 << 19;
/// MDCR_EL3.SCCD: cycle counting is prohibited in secure state.
pub const MDCR_SCCD: u64 = 1 << 23;
/// MDCR_EL3.MTPME: multi-threaded PMU is enabled.
pub const MDCR_MTPME: u64 = 1 << 28;
/// MDCR_EL3.MCCD: cycle counting is prohibited at EL3.
pub const MDCR_MCCD: u64 = 1 << 34;
/// MDCR_EL3.MPMX: event counters are affected by SPME.
pub const MDCR_MPMX: u64 = 1 << 35;
/// MDCR_EL3.EnPMSN: PMSNEVFR_EL1 accesses are not trapped.
pub const MDCR_ENPMSN: u64 = 1 << 36;
/// MDCR_EL3.EnPMS3: PMSDSFR_EL1 accesses are not trapped.
pub const MDCR_ENPMS3: u64 = 1 << 42;

/// EL3 registers whose values are shared across cores, one set per world.
#[derive(Clone, Copy, Debug, Eq, PartialEq, Structural)]
pub struct PerWorldContext {
    /// CPTR_EL3.
    pub cptr_el3: u64,
    /// ZCR_EL3.
    pub zcr_el3: u64,
    /// MPAM3_EL3.
    pub mpam3_el3: u64,
}

impl PerWorldContext {
    /// The context with every register zero.
    pub fn new() -> (r: PerWorldContext)
        ensures
            r == (PerWorldContext { cptr_el3: 0, zcr_el3: 0, mpam3_el3: 0 }),
    {
        PerWorldContext { cptr_el3: 0, zcr_el3: 0, mpam3_el3: 0 }
    }
}

/// An architectural CPU extension, as far as it configures the EL3 registers of the worlds.
pub trait CpuExtension {
    /// The per-world registers once the extension is configured for the world.
    spec fn spec_per_world(&self, world: World, ctx: PerWorldContext) -> PerWorldContext;

    /// The EL3 state of a core's context once the extension is configured for the world.
    spec fn spec_per_cpu(&self, world: World, state: El3State) -> El3State;

    /// Configures the per-world EL3 registers to enable this extension.
    fn configure_per_world(&self, world: World, ctx: &mut PerWorldContext)
        ensures
            *final(ctx) == self.spec_per_world(world, *old(ctx)),
    ;

    /// Configures the per-core EL3 registers of the world's context related to this extension.
    fn configure_per_cpu(&self, world: World, context: &mut CpuContext)
        ensures
            final(context).el3_state == self.spec_per_cpu(world, old(context).el3_state),
            final(context).gpregs == old(context).gpregs,
            final(context).el1_sysregs == old(context).el1_sysregs,
    ;
}

/// FEAT_FGT2: a second set of fine-grained traps.
pub struct Fgt2;

impl CpuExtension for Fgt2 {
    open spec fn spec_per_world(&self, world: World, ctx: PerWorldContext) -> PerWorldContext {
        ctx
    }

    open spec fn spec_per_cpu(&self, world: World, state: El3State) -> El3State {
        El3State { scr_el3: state.scr_el3 | SCR_FGTEN2, ..state }
    }

    fn configure_per_world(&self, world: World, ctx: &mut PerWorldContext) {
    }

    fn configure_per_cpu(&self, world: World, context: &mut CpuContext) {
        context.el3_state.scr_el3 = context.el3_state.scr_el3 | SCR_FGTEN2;
    }
}

/// FEAT_HCX: the HCRX_EL2 register.
pub struct Hcx;

impl CpuExtension for Hcx {
    open spec fn spec_per_world(&self, world: World, ctx: PerWorldContext) -> PerWorldContext {
        ctx
    }

    open spec fn spec_per_cpu(&self, world: World, state: El3State) -> El3State {
        El3State { scr_el3: state.scr_el3 | SCR_HXEN, ..state }
    }

    fn configure_per_world(&self, world: World, ctx: &mut PerWorldContext) {
    }

    fn configure_per_cpu(&self, world: World, context: &mut CpuContext) {
        context.el3_state.scr_el3 = context.el3_state.scr_el3 | SCR_HXEN;
    }
}

/// FEAT_MOPS: memory copy and set instructions. Only its one-time EL3 setup is needed.
pub struct Mops;

impl CpuExtension for Mops {
    open spec fn spec_per_world(&self, world: World, ctx: PerWorldContext) -> PerWorldContext {
        ctx
    }

    open spec fn spec_per_cpu(&self, world: World, state: El3State) -> El3State {
        state
    }

    fn configure_per_world(&self, world: World, ctx: &mut PerWorldContext) {
    }

    fn configure_per_cpu(&self, world: World, context: &mut CpuContext) {
    }
}

/// FEAT_MPAM: memory partitioning and monitoring, enabled for the normal and realm worlds.
pub struct Mpam;

impl CpuExtension for Mpam {
    open spec fn spec_per_world(&self, world: World, ctx: PerWorldContext) -> PerWorldContext {
        if world != World::Secure {
            PerWorldContext { mpam3_el3: MPAM3_MPAMEN, ..ctx }
        } else {
            ctx
        }
    }

    open spec fn spec_per_cpu(&self, world: World, state: El3State) -> El3State {
        state
    }

    fn configure_per_world(&self, world: World, ctx: &mut PerWorldContext) {
        if world != World::Secure {
            // Enable MPAM configuration for the normal and realm worlds.
            ctx.mpam3_el3 = MPAM3_MPAMEN;
        }
    }

    fn configure_per_cpu(&self, world: World, context: &mut CpuContext) {
    }
}

/// FEAT_MTE2: memory tagging, with allocation tags accessible to the normal and secure worlds.
pub struct MemoryTagging;

impl CpuExtension for MemoryTagging {
    open spec fn spec_per_world(&self, world: World, ctx: PerWorldContext) -> PerWorldContext {
        ctx
    }

    open spec fn spec_per_cpu(&self, world: World, state: El3State) -> El3State {
        if world == World::NonSecure || world == World::Secure {
            El3State { scr_el3: state.scr_el3 | SCR_ATA, ..state }
        } else {
            state
        }
    }

    fn configure_per_world(&self, world: World, ctx: &mut PerWorldContext) {
    }

    fn configure_per_cpu(&self, world: World, context: &mut CpuContext) {
        if world == World::NonSecure || world == World::Secure {
            context.el3_state.scr_el3 = context.el3_state.scr_el3 | SCR_ATA;
        }
    }
}

/// FEAT_PAN: privileged access never. Nothing is configured.
pub struct Pan;

impl CpuExtension for Pan {
    open spec fn spec_per_world(&self, world: World, ctx: PerWorldContext) -> PerWorldContext {
        ctx
    }

    open spec fn spec_per_cpu(&self, world: World, state: El3State) -> El3State {
        state
    }

    fn configure_per_world(&self, world: World, ctx: &mut PerWorldContext) {
    }

    fn configure_per_cpu(&self, world: World, context: &mut CpuContext) {
    }
}

/// FEAT_MTPMU: multi-threaded PMU, enabled in MDCR_EL3.
pub struct MultiThreadedPmu;

impl CpuExtension for MultiThreadedPmu {
    open spec fn spec_per_world(&self, world: World, ctx: PerWorldContext) -> PerWorldContext {
        ctx
    }

    open spec fn spec_per_cpu(&self, world: World, state: El3State) -> El3State {
        El3State { mdcr_el3: state.mdcr_el3 | MDCR_MTPME, ..state }
    }

    fn configure_per_world(&self, world: World, ctx: &mut PerWorldContext) {
    }

    fn configure_per_cpu(&self, world: World, context: &mut CpuContext) {
        context.el3_state.mdcr_el3 = context.el3_state.mdcr_el3 | MDCR_MTPME;
    }
}

/// The PMU configuration of every context: cycle counting prohibited in secure state and at
/// EL3, PMUv3p9 registers untrapped; event counting in secure state prohibited and not affected
/// by MPMX; Performance Monitors registers untrapped.
pub open spec fn spec_pmu_mdcr(mdcr: u64) -> u64 {
    (mdcr | MDCR_SCCD | MDCR_MCCD | MDCR_ENPM2) & !(MDCR_MPMX | MDCR_SPME | MDCR_TPM)
}

/// Configures MDCR_EL3 of a context for the PMU, as every context needs it.
pub fn pmu_configure_per_cpu(context: &mut CpuContext)
    ensures
        final(context).el3_state == (El3State { mdcr_el3: spec_pmu_mdcr(old(context).el3_state.mdcr_el3), ..old(context).el3_state }),
        final(context).gpregs == old(context).gpregs,
        final(context).el1_sysregs == old(context).el1_sysregs,
{
    context.el3_state.mdcr_el3 = context.el3_state.mdcr_el3 | MDCR_SCCD | MDCR_MCCD | MDCR_ENPM2;
    context.el3_state.mdcr_el3 = context.el3_state.mdcr_el3 & !(MDCR_MPMX | MDCR_SPME | MDCR_TPM);
}

/// FEAT_RAS: reliability, availability and serviceability. Only its registers are saved and
/// restored.
pub struct Ras;

impl CpuExtension for Ras {
    open spec fn spec_per_world(&self, world: World, ctx: PerWorldContext) -> PerWorldContext {
        ctx
    }

    open spec fn spec_per_cpu(&self, world: World, state: El3State) -> El3State {
        state
    }

    fn configure_per_world(&self, world: World, ctx: &mut PerWorldContext) {
    }

    fn configure_per_cpu(&self, world: World, context: &mut CpuContext) {
    }
}

/// FP/SIMD: register accesses are allowed in every world.
pub struct Simd;

impl CpuExtension for Simd {
    open spec fn spec_per_world(&self, world: World, ctx: PerWorldContext) -> PerWorldContext {
        PerWorldContext { cptr_el3: ctx.cptr_el3 & !CPTR_TFP, ..ctx }
    }

    open spec fn spec_per_cpu(&self, world: World, state: El3State) -> El3State {
        state
    }

    fn configure_per_world(&self, world: World, ctx: &mut PerWorldContext) {
        ctx.cptr_el3 = ctx.cptr_el3 & !CPTR_TFP;
    }

    fn configure_per_cpu(&self, world: World, context: &mut CpuContext) {
    }
}

/// FEAT_SVE: SVE register accesses are allowed in every world.
pub struct Sve;

impl CpuExtension for Sve {
    open spec fn spec_per_world(&self, world: World, ctx: PerWorldContext) -> PerWorldContext {
        PerWorldContext { cptr_el3: ctx.cptr_el3 | CPTR_EZ, ..ctx }
    }

    open spec fn spec_per_cpu(&self, world: World, state: El3State) -> El3State {
        state
    }

    fn configure_per_world(&self, world: World, ctx: &mut PerWorldContext) {
        ctx.cptr_el3 = ctx.cptr_el3 | CPTR_EZ;
    }

    fn configure_per_cpu(&self, world: World, context: &mut CpuContext) {
    }
}

/// FEAT_SPE: statistical profiling, enabled in the normal world with non-secure addresses for the
/// profiling buffer.
pub struct StatisticalProfiling;

impl CpuExtension for StatisticalProfiling {
    open spec fn spec_per_world(&self, world: World, ctx: PerWorldContext) -> PerWorldContext {
        ctx
    }

    open spec fn spec_per_cpu(&self, world: World, state: El3State) -> El3State {
        if world == World::NonSecure {
            El3State { mdcr_el3: (state.mdcr_el3 | MDCR_NSPB_NS | MDCR_ENPMSN | MDCR_ENPMS3) & !MDCR_NSPBE, ..state }
        } else {
            state
        }
    }

    fn configure_per_world(&self, world: World, ctx: &mut PerWorldContext) {
    }

    fn configure_per_cpu(&self, world: World, context: &mut CpuContext) {
        if world == World::NonSecure {
            // SPE is enabled in the normal world and disabled in the secure world; the
            // PMSNEVFR_EL1 and PMSDSFR_EL1 registers are not trapped.
            context.el3_state.mdcr_el3 = context.el3_state.mdcr_el3 | MDCR_NSPB_NS | MDCR_ENPMSN | MDCR_ENPMS3;
            context.el3_state.mdcr_el3 = context.el3_state.mdcr_el3 & !MDCR_NSPBE;
        }
    }
}

/// FEAT_TCR2: TCR2_ELx can be accessed at the lower ELs.
pub struct Tcr2;

impl CpuExtension for Tcr2 {
    open spec fn spec_per_world(&self, world: World, ctx: PerWorldContext) -> PerWorldContext {
        ctx
    }

    open spec fn spec_per_cpu(&self, world: World, state: El3State) -> El3State {
        El3State { scr_el3: state.scr_el3 | SCR_TCR2EN, ..state }
    }

    fn configure_per_world(&self, world: World, ctx: &mut PerWorldContext) {
    }

    fn configure_per_cpu(&self, world: World, context: &mut CpuContext) {
        context.el3_state.scr_el3 = context.el3_state.scr_el3 | SCR_TCR2EN;
    }
}

/// FEAT_TRF: trace filter control registers can be accessed at the lower ELs.
pub struct TraceFiltering;

impl CpuExtension for TraceFiltering {
    open spec fn spec_per_world(&self, world: World, ctx: PerWorldContext) -> PerWorldContext {
        ctx
    }

    open spec fn spec_per_cpu(&self, world: World, state: El3State) -> El3State {
        El3State { mdcr_el3: state.mdcr_el3 & !MDCR_TTRF, ..state }
    }

    fn configure_per_world(&self, world: World, ctx: &mut PerWorldContext) {
    }

    fn configure_per_cpu(&self, world: World, context: &mut CpuContext) {
        context.el3_state.mdcr_el3 = context.el3_state.mdcr_el3 & !MDCR_TTRF;
    }
}

/// FEAT_VHE: the virtualization host extensions. Only its registers are saved and restored.
pub struct VirtualizationHost;

impl CpuExtension for VirtualizationHost {
    open spec fn spec_per_world(&self, world: World, ctx: PerWorldContext) -> PerWorldContext {
        ctx
    }

    open spec fn spec_per_cpu(&self, world: World, state: El3State) -> El3State {
        state
    }

    fn configure_per_world(&self, world: World, ctx: &mut PerWorldContext) {
    }

    fn configure_per_cpu(&self, world: World, context: &mut CpuContext) {
    }
}

} // verus!
