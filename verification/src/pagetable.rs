//! Translation table layout of EL3: a 4 KiB granule and a level 1 root table covering a 39-bit
//! address space; and the early page table, built at boot from a compact description.

pub mod early_pagetable;

use crate::layout::{
    bl31_end, bl31_start, bl_code_base, bl_code_end, bl_ro_data_base, bl_ro_data_end, bss2_end,
    bss2_start,
};

use vstd::prelude::*;

verus! {

/// The translation granule, and the size of a table, in bytes.
pub const GRANULE_SIZE: usize = 4096;

/// The size of the blocks that the entries of the root (level 1) table map: 1 GiB.
pub const TOP_LEVEL_BLOCK_SIZE: usize = 0x4000_0000;

/// The number of entries of the root table.
pub const TOP_LEVEL_DESCRIPTOR_COUNT: usize = 512;

/// The kinds of memory that the boot page table maps, each with its own attributes.
#[derive(Clone, Copy, Debug, PartialEq, Eq, Structural)]
pub enum RegionKind {
    /// Normal memory, read-write.
    Memory,
    /// Code: read-only and executable.
    Code,
    /// Read-only data, never executable.
    RoData,
    /// Read-write data, never executable.
    RwData,
}

/// A range of addresses `[start, end)` that the boot page table maps identically.
#[derive(Clone, Copy, Debug, PartialEq, Eq, Structural)]
pub struct BootRegion {
    /// First address of the range.
    pub start: usize,
    /// First address after the range.
    pub end: usize,
    /// The kind of memory of the range.
    pub kind: RegionKind,
}

/// Lists the regions of the firmware image that the page table maps before the platform's own
/// regions: the image as memory, its code, its read-only data, and its second BSS section as
/// read-write data where that section is not empty (it is empty in this layout). The secure
/// world's entry point must lie outside the image and outside the second BSS section.
pub fn image_regions(secure_entry_pc: u64) -> (r: Vec<BootRegion>)
    requires
        secure_entry_pc < 0x6_0000 || secure_entry_pc >= 0x10_0000,
    ensures
        r@ == seq![
            BootRegion { start: 0x6_0000, end: 0x10_0000, kind: RegionKind::Memory },
            BootRegion { start: 0x1_0000, end: 0x3_0000, kind: RegionKind::Code },
            BootRegion { start: 0x3_0000, end: 0x4_0000, kind: RegionKind::RoData },
        ],
{
    let mut regions: Vec<BootRegion> = Vec::new();
    regions.push(BootRegion { start: bl31_start(), end: bl31_end(), kind: RegionKind::Memory });
    regions.push(BootRegion { start: bl_code_base(), end: bl_code_end(), kind: RegionKind::Code });
    regions.push(BootRegion { start: bl_ro_data_base(), end: bl_ro_data_end(), kind: RegionKind::RoData });
    let bss2_start = bss2_start();
    let bss2_end = bss2_end();
    if bss2_start != bss2_end {
        regions.push(BootRegion { start: bss2_start, end: bss2_end, kind: RegionKind::RwData });
    }
    assert(regions@ =~= seq![
        BootRegion { start: 0x6_0000, end: 0x10_0000, kind: RegionKind::Memory },
        BootRegion { start: 0x1_0000, end: 0x3_0000, kind: RegionKind::Code },
        BootRegion { start: 0x3_0000, end: 0x4_0000, kind: RegionKind::RoData },
    ]);
    regions
}

} // verus!
