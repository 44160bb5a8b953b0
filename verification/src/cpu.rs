//! CPU identification: each supported CPU type is recognised by the Implementer and PartNum
//! fields of its MIDR_EL1 value, and the CPU operations of the running core are looked up by it.

use vstd::prelude::*;

verus! {

/// Only the Implementer and PartNum fields of MIDR_EL1 identify a CPU type.
pub const MIDR_MASK: u64 = 0xff00_fff0;

/// A CPU type: its main ID register value, of which only the Implementer and PartNum fields
/// identify it.
pub trait Cpu {
    /// The MIDR_EL1 value of the CPU type.
    spec fn spec_midr() -> u64;

    /// Returns the MIDR_EL1 value of the CPU type.
    fn midr() -> (r: u64)
        ensures
            r == Self::spec_midr(),
    ;
}

/// The Arm Architecture Envelope Model of the FVP.
pub struct AemGeneric;

impl Cpu for AemGeneric {
    open spec fn spec_midr() -> u64 {
        0x410f_d0f0
    }

    fn midr() -> (r: u64) {
        0x410f_d0f0
    }
}

/// Arm Cortex-A78.
pub struct CortexA78;

impl Cpu for CortexA78 {
    open spec fn spec_midr() -> u64 {
        0x410f_d410
    }

    fn midr() -> (r: u64) {
        0x410f_d410
    }
}

/// The `max` CPU of QEMU.
pub struct QemuMax;

impl Cpu for QemuMax {
    open spec fn spec_midr() -> u64 {
        0x000f_0510
    }

    fn midr() -> (r: u64) {
        0x000f_0510
    }
}

/// The identification of a CPU type's operations: its MIDR_EL1 value, masked to the Implementer
/// and PartNum fields.
#[derive(Clone, Copy, Debug, Eq, PartialEq, Structural)]
pub struct CpuOps {
    /// The masked MIDR_EL1 value.
    pub midr: u64,
}

impl CpuOps {
    /// Creates the [`CpuOps`] of a [`Cpu`] type.
    pub fn from_cpu<T: Cpu>() -> (r: CpuOps)
        ensures
            r.midr == T::spec_midr() & MIDR_MASK,
    {
        CpuOps { midr: T::midr() & MIDR_MASK }
    }

    /// Whether the operations are those of a core with the given MIDR_EL1 value.
    pub open spec fn spec_matches(self, midr: u64) -> bool {
        self.midr == midr & MIDR_MASK
    }

    /// Checks if the instance has an MIDR with matching Implementer and PartNum fields.
    pub fn has_matching_midr(&self, midr: u64) -> (r: bool)
        ensures
            r == self.spec_matches(midr),
    {
        self.midr == (midr & MIDR_MASK)
    }
}

/// Looks up the operations of the core with the given MIDR_EL1 value: the index of the first
/// entry of the list that matches it, or `None` if the CPU type is unknown.
pub fn find_cpu_ops(cpu_ops: &[CpuOps], midr: u64) -> (r: Option<usize>)
    ensures
        r matches Some(i) ==> i < cpu_ops@.len() && cpu_ops@[i as int].spec_matches(midr)
            && forall|j: int| 0 <= j < i ==> !cpu_ops@[j].spec_matches(midr),
        r is None ==> forall|j: int| 0 <= j < cpu_ops@.len() ==> !cpu_ops@[j].spec_matches(midr),
{
    let mut i: usize = 0;
    while i < cpu_ops.len()
        invariant
            i <= cpu_ops@.len(),
            forall|j: int| 0 <= j < i ==> !cpu_ops@[j].spec_matches(midr),
        decreases cpu_ops@.len() - i,
    {
        if cpu_ops[i].has_matching_midr(midr) {
            return Some(i);
        }
        i = i + 1;
    }
    None
}

/// Which power down preparation a CPU power down at the given power level needs.
#[derive(Clone, Copy, Debug, Eq, PartialEq, Structural)]
pub enum PowerDownLevel {
    /// Only power level 0 (the core) is powered down.
    Level0,
    /// Power levels 0 and 1 (the core and its cluster) are powered down.
    Level1,
}

/// Returns the power down preparation for a power down at `level`: level 0 for the core alone,
/// level 1 for anything above.
pub fn cpu_power_down(level: usize) -> (r: PowerDownLevel)
    ensures
        r == (if level == 0 { PowerDownLevel::Level0 } else { PowerDownLevel::Level1 }),
{
    if level == 0 {
        PowerDownLevel::Level0
    } else {
        PowerDownLevel::Level1
    }
}

} // verus!
