//! AArch64 cache identification: the cache type of each level (CLIDR_EL1), the geometry of a
//! level (CCSIDR_EL1), and the set/way operands of the cache maintenance by set/way that cleans
//! and invalidates a whole level.

use vstd::prelude::*;

verus! {

/// Cache type of a cache level, as CLIDR_EL1 reports it.
#[derive(Clone, Copy, Debug, Eq, PartialEq, Structural)]
pub enum CacheType {
    /// No cache.
    NoCache,
    /// Instruction cache only.
    InstructionOnly,
    /// Data cache only.
    DataOnly,
    /// Separate instruction and data caches.
    SeparateInstructionAndData,
    /// Unified cache.
    Unified,
}

/// The 3-bit Ctype field of a cache level (1 to 7) in CLIDR_EL1.
pub open spec fn spec_ctype_field(clidr: u64, level: u8) -> u64 {
    (clidr >> (3 * (level - 1)) as u64) & 7
}

/// The cache type of a Ctype field value (0 to 4).
pub open spec fn spec_cache_type(field: u64) -> CacheType {
    if field == 0 {
        CacheType::NoCache
    } else if field == 1 {
        CacheType::InstructionOnly
    } else if field == 2 {
        CacheType::DataOnly
    } else if field == 3 {
        CacheType::SeparateInstructionAndData
    } else {
        CacheType::Unified
    }
}

/// Returns the cache type of a cache level (1 to 7) in a CLIDR_EL1 value whose Ctype field for
/// the level holds a defined value (0 to 4).
pub fn clidr_cache_type(clidr: u64, level: u8) -> (r: CacheType)
    requires
        1 <= level < 8,
        spec_ctype_field(clidr, level) <= 4,
    ensures
        r == spec_cache_type(spec_ctype_field(clidr, level)),
{
    let field = (clidr >> (3 * (level - 1)) as u64) & 7;
    if field == 0 {
        CacheType::NoCache
    } else if field == 1 {
        CacheType::InstructionOnly
    } else if field == 2 {
        CacheType::DataOnly
    } else if field == 3 {
        CacheType::SeparateInstructionAndData
    } else {
        CacheType::Unified
    }
}

/// The cache size descriptor.
#[derive(Clone, Copy, Debug, Eq, PartialEq, Structural)]
pub struct CacheSize {
    /// (Number of sets in cache) - 1, therefore a value of 0 indicates 1 set in the cache. The
    /// number of sets does not have to be a power of 2.
    pub num_sets: u32,
    /// (Associativity of cache) - 1, therefore a value of 0 indicates an associativity of 1. The
    /// associativity does not have to be a power of 2.
    pub associativity: u32,
    /// (Log2(Number of bytes in cache line)) - 4
    pub line_size_log: u32,
}

/// The cache size description in a CCSIDR_EL1 value: NumSets in bits 55:32 and Associativity in
/// bits 23:3 with FEAT_CCIDX (64-bit CCSIDR_EL1), else in bits 27:13 and 12:3; LineSize in bits
/// 2:0.
pub open spec fn spec_cache_size(ccsidr: u64, ccidx: bool) -> CacheSize {
    if ccidx {
        CacheSize {
            num_sets: ((ccsidr >> 32u64) & 0x00ff_ffff) as u32,
            associativity: ((ccsidr >> 3u64) & 0x001f_ffff) as u32,
            line_size_log: (ccsidr & 0b111) as u32,
        }
    } else {
        CacheSize {
            num_sets: ((ccsidr >> 13u64) & 0x0000_7fff) as u32,
            associativity: ((ccsidr >> 3u64) & 0x0000_03ff) as u32,
            line_size_log: (ccsidr & 0b111) as u32,
        }
    }
}

/// Extracts the cache size description of the selected cache level from CCSIDR_EL1, according to
/// the presence of FEAT_CCIDX.
pub fn read_cache_size(ccsidr: u64, ccidx: bool) -> (r: CacheSize)
    ensures
        r == spec_cache_size(ccsidr, ccidx),
        r.line_size_log <= 7,
{
    let (num_sets, associativity) = if ccidx {
        (((ccsidr >> 32u64) & 0x00ff_ffff) as u32, ((ccsidr >> 3u64) & 0x001f_ffff) as u32)
    } else {
        (((ccsidr >> 13u64) & 0x0000_7fff) as u32, ((ccsidr >> 3u64) & 0x0000_03ff) as u32)
    };

    let line_size_log = (ccsidr & 0b111) as u32;
    assert(ccsidr & 0b111 <= 7) by (bit_vector);

    CacheSize { num_sets, associativity, line_size_log }
}

/// The set/way operands of `DC CISW` over one cache level: the operand of way `w` (way index in
/// the top bits) and set `s` (set index shifted by the line size) is `level_bits | w | s`, for
/// `w` from 0 to `ways_aligned` in steps of `way_step`, and `s` from 0 to `max_set` in steps of
/// `set_step`.
#[derive(Clone, Copy, Debug, Eq, PartialEq, Structural)]
pub struct SetWayGeometry {
    /// The cache level, in bits 3:1.
    pub level_bits: u64,
    /// The way step: the way index is in the top bits.
    pub way_step: u64,
    /// The highest way operand.
    pub ways_aligned: u64,
    /// The set step: the length of a cache line.
    pub set_step: u64,
    /// The highest set operand.
    pub max_set: u64,
}

/// The set/way geometry of a cache level: the way index goes to the top bits of the operand (so
/// the associativity minus one is shifted up by its leading zeros), the set index above the line
/// offset.
pub open spec fn spec_set_way_geometry(level: u8, cache_size: CacheSize) -> SetWayGeometry {
    let assoc_shift = vstd::std_specs::bits::u32_leading_zeros(cache_size.associativity);
    SetWayGeometry {
        level_bits: ((level as u64) * 2) as u64,
        way_step: (1u64 << assoc_shift) as u64,
        ways_aligned: (cache_size.associativity << assoc_shift) as u64,
        set_step: (1u64 << (cache_size.line_size_log + 4)) as u64,
        max_set: (cache_size.num_sets << (cache_size.line_size_log + 4)) as u64,
    }
}

/// Calculates the set/way iteration of a cache level (1 to 7) with an associativity of at least
/// two ways.
pub fn set_way_geometry(level: u8, cache_size: &CacheSize) -> (r: SetWayGeometry)
    requires
        1 <= level < 8,
        cache_size.associativity != 0,
        cache_size.line_size_log <= 7,
    ensures
        r == spec_set_way_geometry(level, *cache_size),
{
    broadcast use vstd::std_specs::bits::axiom_u32_leading_zeros;
    let assoc_shift = cache_size.associativity.leading_zeros();
    let ways_aligned = (cache_size.associativity << assoc_shift) as u64;
    let way_step: u64 = 1u64 << assoc_shift;
    let set_step: u64 = 1u64 << (cache_size.line_size_log + 4);
    let max_set = (cache_size.num_sets << (cache_size.line_size_log + 4)) as u64;
    SetWayGeometry { level_bits: (level as u64) * 2, way_step, ways_aligned, set_step, max_set }
}

/// The `DC CISW` operand of a way and a set operand of the geometry.
pub fn set_way_operand(geometry: &SetWayGeometry, way: u64, set: u64) -> (r: u64)
    ensures
        r == geometry.level_bits | way | set,
{
    geometry.level_bits | way | set
}

/// Whether the power down of level 0 on the AEM FVP also flushes the level 2 cache: it does if a
/// level 3 cache is present, as the level 2 cache is then private to the core.
pub fn aem_power_down_level0_flushes_l2(clidr: u64) -> (r: bool)
    requires
        spec_ctype_field(clidr, 3) <= 4,
    ensures
        r == (spec_cache_type(spec_ctype_field(clidr, 3)) != CacheType::NoCache),
{
    clidr_cache_type(clidr, 3) != CacheType::NoCache
}

} // verus!
