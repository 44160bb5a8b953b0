//! The early page table: at build time a list of memory regions is turned into a compact list of
//! descriptor ranges, from which the boot code writes the page tables before the MMU is enabled.
//!
//! The page tables are laid out one after the other in a flat array of 8-byte descriptors: the
//! root table first, then each next level table where the walk below first reaches it.

use crate::pagetable::{GRANULE_SIZE, TOP_LEVEL_BLOCK_SIZE, TOP_LEVEL_DESCRIPTOR_COUNT};
use core::ops::Range;
use vstd::prelude::*;

verus! {

/// A memory region of the early page table.
pub struct EarlyRegion {
    /// Physical address range.
    pub address_range: Range<usize>,
    /// Attribute bits of the mapped memory.
    pub attributes: usize,
}

/// One or more descriptors of the early page table, as (offset, value) pairs. Consecutive block
/// descriptors tend to have incremental output addresses, so only the first descriptor is stored,
/// with the repetition count and the increment.
#[derive(Clone, Copy, Debug, PartialEq, Eq, Structural)]
pub struct DescriptorRange {
    /// Byte offset of the descriptor in the flattened page table array.
    pub index: usize,
    /// Split in two by the granule size mask: the upper part is the step added to each
    /// descriptor value, the lower part the count of consecutive block descriptors. It is 0 for
    /// table descriptors.
    pub step_count: usize,
    /// Descriptor value. For a table descriptor it is the offset of the next level table in the
    /// page table array, with the table and valid bits.
    pub value: usize,
}

/// The blocks of a next level table are smaller.
pub proof fn lemma_block_shrinks(bs: int)
    requires
        bs > 0,
    ensures
        0 <= bs / table_entries() < bs,
{
    assert(0 <= bs / 512 < bs) by (nonlinear_arith)
        requires
            bs > 0,
    ;
}

/// The first region that hits a block is one that hits it, and no region before it does.
pub proof fn lemma_first_hit(regions: Seq<EarlyRegion>, s: int, e: int, i: int)
    requires
        0 <= i,
    ensures
        first_hit(regions, s, e, i) matches Some(j) ==> {
            &&& i <= j < regions.len()
            &&& hits(regions[j], s, e)
            &&& forall|k: int| i <= k < j ==> !hits(#[trigger] regions[k], s, e)
        },
        first_hit(regions, s, e, i) is None ==> forall|k: int| i <= k < regions.len() ==> !hits(#[trigger] regions[k], s, e),
    decreases regions.len() - i,
{
    if i < regions.len() && !hits(regions[i], s, e) {
        lemma_first_hit(regions, s, e, i + 1);
    }
}

/// Counting the descriptor ranges of a table gives the number that the walk builds, and the same
/// verdict on whether it can be built.
pub proof fn lemma_count_walk(regions: Seq<EarlyRegion>, start_entry: int, base: int, bs: int, count: int, d: int, used: int)
    ensures
        count_walk(regions, base, bs, count, d) == ({
            let w = walk(regions, start_entry, base, bs, count, d, used);
            (w.0.len() as int, w.2)
        }),
    decreases bs, count + 1 - d,
{
    if d < 0 || d >= count || bs <= 0 {
    } else {
        let s = base + d * bs;
        let e = s + bs;
        lemma_first_hit(regions, s, e, 0);
        match first_hit(regions, s, e, 0) {
            None => {
                lemma_count_walk(regions, start_entry, base, bs, count, d + 1, used);
            },
            Some(i) => {
                let region = regions[i];
                if covers(region, s, e) {
                    let rep = min_int((region.address_range.end - e) / bs, count - d - 1);
                    assert(rep >= 0) by (nonlinear_arith)
                        requires
                            rep == min_int((region.address_range.end - e) / bs, count - d - 1),
                            region.address_range.end - e >= 0,
                            bs > 0,
                            count - d > 0,
                    ;
                    lemma_count_walk(regions, start_entry, base, bs, count, d + rep + 1, used);
                } else {
                    lemma_block_shrinks(bs);
                    let sub = walk(regions, start_entry + used, s, bs / table_entries(), table_entries(), 0, table_entries());
                    lemma_count_walk(regions, start_entry + used, s, bs / table_entries(), table_entries(), 0, table_entries());
                    lemma_count_walk(regions, start_entry, base, bs, count, d + 1, used + sub.1);
                }
            },
        }
    }
}

/// The entry bounds are positive.
pub proof fn lemma_entry_bound(bs: int)
    ensures
        sub_bound(bs) >= 0,
        entry_bound(bs) >= table_entries(),
    decreases bs,
{
    if bs > 0 && bs / table_entries() >= GRANULE_SIZE {
        lemma_block_shrinks(bs);
        lemma_entry_bound(bs / table_entries());
    }
    assert(table_entries() * sub_bound(bs) >= 0) by (nonlinear_arith)
        requires
            sub_bound(bs) >= 0,
            table_entries() == 512,
    ;
}

/// A table whose walk can be built takes, from descriptor `d` on, at most `sub_bound(bs)`
/// entries for each of its remaining descriptors.
pub proof fn lemma_walk_used(regions: Seq<EarlyRegion>, start_entry: int, base: int, bs: int, count: int, d: int, used: int)
    requires
        walk(regions, start_entry, base, bs, count, d, used).2,
        0 <= d,
    ensures
        ({
            let w = walk(regions, start_entry, base, bs, count, d, used);
            &&& used <= w.1
            &&& d <= count ==> w.1 <= used + (count - d) * sub_bound(bs)
            &&& d > count ==> w.1 == used
        }),
    decreases bs, count + 1 - d,
{
    lemma_entry_bound(bs);
    if d < 0 || d >= count || bs <= 0 {
        if d <= count {
            assert((count - d) * sub_bound(bs) >= 0) by (nonlinear_arith)
                requires
                    count - d >= 0,
                    sub_bound(bs) >= 0,
            ;
        }
    } else {
        let s = base + d * bs;
        let e = s + bs;
        let x = sub_bound(bs);
        lemma_first_hit(regions, s, e, 0);
        match first_hit(regions, s, e, 0) {
            None => {
                lemma_walk_used(regions, start_entry, base, bs, count, d + 1, used);
                assert((count - d - 1) * x + x == (count - d) * x) by (nonlinear_arith);
            },
            Some(i) => {
                let region = regions[i];
                if covers(region, s, e) {
                    let rep = min_int((region.address_range.end - e) / bs, count - d - 1);
                    assert(rep >= 0) by (nonlinear_arith)
                        requires
                            rep == min_int((region.address_range.end - e) / bs, count - d - 1),
                            region.address_range.end - e >= 0,
                            bs > 0,
                            count - d > 0,
                    ;
                    lemma_walk_used(regions, start_entry, base, bs, count, d + rep + 1, used);
                    if d + rep + 1 <= count {
                        assert((count - d - rep - 1) * x <= (count - d) * x) by (nonlinear_arith)
                            requires
                                rep >= 0,
                                x >= 0,
                        ;
                    } else {
                        assert((count - d) * x >= 0) by (nonlinear_arith)
                            requires
                                count - d >= 0,
                                x >= 0,
                        ;
                    }
                } else {
                    lemma_block_shrinks(bs);
                    let sub = walk(regions, start_entry + used, s, bs / table_entries(), table_entries(), 0, table_entries());
                    lemma_walk_used(regions, start_entry + used, s, bs / table_entries(), table_entries(), 0, table_entries());
                    lemma_walk_used(regions, start_entry, base, bs, count, d + 1, used + sub.1);
                    assert(sub.1 <= x);
                    assert((count - d - 1) * x + x == (count - d) * x) by (nonlinear_arith);
                }
            },
        }
    }
}

/// A table's walk builds at most one range for each of its remaining descriptors and each entry
/// that the tables below them take.
pub proof fn lemma_walk_len(regions: Seq<EarlyRegion>, start_entry: int, base: int, bs: int, count: int, d: int, used: int)
    requires
        walk(regions, start_entry, base, bs, count, d, used).2,
        0 <= d,
    ensures
        ({
            let w = walk(regions, start_entry, base, bs, count, d, used);
            w.0.len() <= (if d <= count { count - d } else { 0 }) + (w.1 - used)
        }),
    decreases bs, count + 1 - d,
{
    lemma_walk_used(regions, start_entry, base, bs, count, d, used);
    if d < 0 || d >= count || bs <= 0 {
    } else {
        let s = base + d * bs;
        let e = s + bs;
        lemma_first_hit(regions, s, e, 0);
        match first_hit(regions, s, e, 0) {
            None => {
                lemma_walk_len(regions, start_entry, base, bs, count, d + 1, used);
            },
            Some(i) => {
                let region = regions[i];
                if covers(region, s, e) {
                    let rep = min_int((region.address_range.end - e) / bs, count - d - 1);
                    assert(rep >= 0) by (nonlinear_arith)
                        requires
                            rep == min_int((region.address_range.end - e) / bs, count - d - 1),
                            region.address_range.end - e >= 0,
                            bs > 0,
                            count - d > 0,
                    ;
                    lemma_walk_len(regions, start_entry, base, bs, count, d + rep + 1, used);
                    lemma_walk_used(regions, start_entry, base, bs, count, d + rep + 1, used);
                } else {
                    lemma_block_shrinks(bs);
                    let sub = walk(regions, start_entry + used, s, bs / table_entries(), table_entries(), 0, table_entries());
                    lemma_walk_len(regions, start_entry + used, s, bs / table_entries(), table_entries(), 0, table_entries());
                    lemma_walk_len(regions, start_entry, base, bs, count, d + 1, used + sub.1);
                    lemma_walk_used(regions, start_entry, base, bs, count, d + 1, used + sub.1);
                }
            },
        }
    }
}

/// The number of descriptors of a table.
pub open spec fn table_entries() -> int {
    (GRANULE_SIZE / 8) as int
}

/// Whether the region covers the block `s..e`.
pub open spec fn covers(region: EarlyRegion, s: int, e: int) -> bool {
    region.address_range.start <= s && e <= region.address_range.end
}

/// The larger of two integers.
pub open spec fn max_int(a: int, b: int) -> int {
    if a > b { a } else { b }
}

/// The smaller of two integers.
pub open spec fn min_int(a: int, b: int) -> int {
    if a < b { a } else { b }
}

/// Whether the ranges `a_start..a_end` and `b_start..b_end` overlap.
pub open spec fn spec_overlaps(a_start: int, a_end: int, b_start: int, b_end: int) -> bool {
    max_int(a_start, b_start) < min_int(a_end, b_end)
}

/// Whether the region covers or overlaps the block `s..e`.
pub open spec fn hits(region: EarlyRegion, s: int, e: int) -> bool {
    covers(region, s, e) || spec_overlaps(s, e, region.address_range.start as int, region.address_range.end as int)
}

/// The first region, from index `i` on, that covers or overlaps the block `s..e`.
pub open spec fn first_hit(regions: Seq<EarlyRegion>, s: int, e: int, i: int) -> Option<int>
    decreases regions.len() - i,
{
    if i < 0 || i >= regions.len() {
        None
    } else if hits(regions[i], s, e) {
        Some(i)
    } else {
        first_hit(regions, s, e, i + 1)
    }
}

/// The block descriptors from descriptor `d` of a table at `start_entry`: `rep + 1` blocks of size
/// `bs` from address `s`, with the region's attributes and the block (or, for the granule size,
/// page) and valid bits.
pub open spec fn block_range(start_entry: int, d: int, bs: int, rep: int, s: int, attributes: usize) -> DescriptorRange {
    DescriptorRange {
        index: ((d + start_entry) * 8) as usize,
        step_count: (bs as usize) | ((rep + 1) as usize),
        value: (s as usize) | attributes | (if bs == GRANULE_SIZE { 3usize } else { 1usize }),
    }
}

/// The table descriptor `d` of a table at `start_entry`, pointing at the table at entry `next`.
pub open spec fn table_range(start_entry: int, d: int, next: int) -> DescriptorRange {
    DescriptorRange {
        index: ((d + start_entry) * 8) as usize,
        step_count: 0,
        value: ((next * 8) as usize) | 3usize,
    }
}

/// The descriptor ranges of a table, from its descriptor `d` on. The table starts at entry
/// `start_entry` of the flat array, its descriptors map blocks of size `bs` from `base`, it has
/// `count` descriptors, and `used` entries of the array after `start_entry` are taken by it and
/// the tables below its first `d` descriptors.
///
/// Each block is mapped by the first region that covers or overlaps it. A covering region gives
/// block descriptors for as many of the following blocks as it covers; an overlapping one gives a
/// table descriptor and a next level table after the used entries. The result is the ranges, the
/// entries used once the table is done, and whether every next level table still has blocks of
/// at least the granule size.
pub open spec fn walk(regions: Seq<EarlyRegion>, start_entry: int, base: int, bs: int, count: int, d: int, used: int)
    -> (Seq<DescriptorRange>, int, bool)
    decreases bs, count + 1 - d,
{
    if d < 0 || d >= count || bs <= 0 {
        (Seq::empty(), used, true)
    } else {
        let s = base + d * bs;
        let e = s + bs;
        match first_hit(regions, s, e, 0) {
            None => walk(regions, start_entry, base, bs, count, d + 1, used),
            Some(i) => {
                let region = regions[i];
                if covers(region, s, e) {
                    let rep = min_int((region.address_range.end - e) / bs, count - d - 1);
                    let rest = walk(regions, start_entry, base, bs, count, d + rep + 1, used);
                    (seq![block_range(start_entry, d, bs, rep, s, region.attributes)] + rest.0, rest.1, rest.2)
                } else {
                    proof {
                        lemma_block_shrinks(bs);
                    }
                    let sub = walk(regions, start_entry + used, s, bs / table_entries(), table_entries(), 0, table_entries());
                    let rest = walk(regions, start_entry, base, bs, count, d + 1, used + sub.1);
                    (
                        seq![table_range(start_entry, d, start_entry + used)] + sub.0 + rest.0,
                        rest.1,
                        bs / table_entries() >= GRANULE_SIZE && sub.2 && rest.2,
                    )
                }
            },
        }
    }
}

/// The number of descriptor ranges of a table from its descriptor `d` on, and whether every next
/// level table still has blocks of at least the granule size.
pub open spec fn count_walk(regions: Seq<EarlyRegion>, base: int, bs: int, count: int, d: int) -> (int, bool)
    decreases bs, count + 1 - d,
{
    if d < 0 || d >= count || bs <= 0 {
        (0, true)
    } else {
        let s = base + d * bs;
        let e = s + bs;
        match first_hit(regions, s, e, 0) {
            None => count_walk(regions, base, bs, count, d + 1),
            Some(i) => {
                let region = regions[i];
                if covers(region, s, e) {
                    let rep = min_int((region.address_range.end - e) / bs, count - d - 1);
                    let rest = count_walk(regions, base, bs, count, d + rep + 1);
                    (rest.0 + 1, rest.1)
                } else {
                    proof {
                        lemma_block_shrinks(bs);
                    }
                    let sub = count_walk(regions, s, bs / table_entries(), table_entries(), 0);
                    let rest = count_walk(regions, base, bs, count, d + 1);
                    (sub.0 + 1 + rest.0, bs / table_entries() >= GRANULE_SIZE && sub.1 && rest.1)
                }
            },
        }
    }
}

/// The descriptor ranges of the early page table for the regions, the entries of its flat array,
/// and whether it can be built (every next level table has blocks of at least the granule size).
pub open spec fn spec_ranges(regions: Seq<EarlyRegion>) -> (Seq<DescriptorRange>, int, bool) {
    walk(regions, 0, 0, TOP_LEVEL_BLOCK_SIZE as int, TOP_LEVEL_DESCRIPTOR_COUNT as int, 0, table_entries())
}

/// The number of descriptor ranges of the early page table for the regions.
pub open spec fn spec_range_count(regions: Seq<EarlyRegion>) -> int {
    count_walk(regions, 0, TOP_LEVEL_BLOCK_SIZE as int, TOP_LEVEL_DESCRIPTOR_COUNT as int, 0).0
}

/// The most entries that a table with blocks of size `bs` and the tables below it take.
pub open spec fn entry_bound(bs: int) -> int
    decreases bs,
{
    table_entries() + table_entries() * sub_bound(bs)
}

/// The most entries that the next level table of a descriptor mapping `bs` bytes takes, and
/// the tables below it.
pub open spec fn sub_bound(bs: int) -> int
    decreases bs, 0int,
{
    if bs > 0 && bs / table_entries() >= GRANULE_SIZE {
        proof {
            lemma_block_shrinks(bs);
        }
        entry_bound(bs / table_entries())
    } else {
        0
    }
}


/// Writing the element after a prefix extends the prefix by it.
proof fn lemma_write_next<T>(s: Seq<T>, a: int, i: int, v: T)
    requires
        0 <= a <= i < s.len(),
    ensures
        s.update(i, v).subrange(a, i + 1) == s.subrange(a, i).push(v),
        s.update(i, v).subrange(0, a) == s.subrange(0, a),
        forall|b: int| i < b <= s.len() ==> s.update(i, v).subrange(b, s.len() as int) == #[trigger] s.subrange(b, s.len() as int),
{
    assert(s.update(i, v).subrange(a, i + 1) =~= s.subrange(a, i).push(v));
    assert(s.update(i, v).subrange(0, a) =~= s.subrange(0, a));
    assert forall|b: int| i < b <= s.len() implies s.update(i, v).subrange(b, s.len() as int) == #[trigger] s.subrange(b, s.len() as int) by {
        assert(s.update(i, v).subrange(b, s.len() as int) =~= s.subrange(b, s.len() as int));
    }
}

/// The address space of the root table fits in `usize`.
pub open spec fn address_space_fits() -> bool {
    TOP_LEVEL_BLOCK_SIZE * TOP_LEVEL_DESCRIPTOR_COUNT <= usize::MAX
}

/// `usize::min`.
fn min(a: usize, b: usize) -> (r: usize)
    ensures
        r == min_int(a as int, b as int),
{
    if a < b { a } else { b }
}

/// `usize::max`.
fn max(a: usize, b: usize) -> (r: usize)
    ensures
        r == max_int(a as int, b as int),
{
    if a > b { a } else { b }
}

/// `Range::overlaps`.
fn overlaps(a: &Range<usize>, b: &Range<usize>) -> (r: bool)
    ensures
        r == spec_overlaps(a.start as int, a.end as int, b.start as int, b.end as int),
{
    max(a.start, b.start) < min(a.end, b.end)
}

/// Returns the first region that covers or overlaps the block.
fn find_hit(regions: &[EarlyRegion], block: &Range<usize>) -> (r: Option<usize>)
    ensures
        r matches Some(i) ==> first_hit(regions@, block.start as int, block.end as int, 0) == Some(i as int),
        r is None ==> first_hit(regions@, block.start as int, block.end as int, 0) is None,
{
    let mut region_index: usize = 0;
    while region_index < regions.len()
        invariant
            region_index <= regions@.len(),
            first_hit(regions@, block.start as int, block.end as int, 0)
                == first_hit(regions@, block.start as int, block.end as int, region_index as int),
        decreases regions@.len() - region_index,
    {
        let range = &regions[region_index].address_range;
        if (range.start <= block.start && block.end <= range.end) || overlaps(block, range) {
            return Some(region_index);
        }
        region_index += 1;
    }
    None
}

/// Builds the descriptor ranges of a table and the tables below it into `ranges` from
/// `output_index` on, as if it built the page tables themselves. The table is at entry
/// `start_entry` of the flattened page table array, and has `descriptor_count` descriptors
/// mapping blocks of size `block_size` from `block_base_address`.
///
/// Returns the number of entries that the table and the tables below it take, and the next free
/// index of `ranges`.
fn build_ranges_for_table<const N: usize>(
    regions: &[EarlyRegion],
    ranges: &mut [DescriptorRange; N],
    output_index: usize,
    start_entry: usize,
    block_base_address: usize,
    block_size: usize,
    descriptor_count: usize,
) -> (r: (usize, usize))
    requires
        walk(regions@, start_entry as int, block_base_address as int, block_size as int, descriptor_count as int, 0, table_entries()).2,
        output_index + walk(regions@, start_entry as int, block_base_address as int, block_size as int, descriptor_count as int, 0, table_entries()).0.len() <= N,
        block_size > 0,
        descriptor_count == table_entries(),
        block_base_address + descriptor_count * block_size <= usize::MAX,
        (start_entry + 2 * table_entries() + table_entries() * sub_bound(block_size as int)) * 8 <= usize::MAX,
    ensures
        ({
            let w = walk(regions@, start_entry as int, block_base_address as int, block_size as int, descriptor_count as int, 0, table_entries());
            &&& r.0 == w.1
            &&& r.1 == output_index + w.0.len()
            &&& final(ranges)@ == old(ranges)@.subrange(0, output_index as int) + w.0 + old(ranges)@.subrange(r.1 as int, N as int)
        }),
    decreases block_size,
{
    let ghost se = start_entry as int;
    let ghost base = block_base_address as int;
    let ghost bs = block_size as int;
    let ghost count = descriptor_count as int;
    let ghost w0 = walk(regions@, se, base, bs, count, 0, table_entries());
    let ghost out0 = output_index as int;
    let ghost out_end = out0 + w0.0.len();
    let ghost x = sub_bound(bs);
    let ghost old_ranges = ranges@;
    proof {
        lemma_entry_bound(bs);
        lemma_walk_used(regions@, se, base, bs, count, 0, table_entries());
    }
    let mut output_index = output_index;
    let mut used_entry_count: usize = GRANULE_SIZE / 8;
    let mut descriptor_index: usize = 0;

    // Looping the descriptors of the current table.
    while descriptor_index < descriptor_count
        invariant
            descriptor_index <= count + 1,
            count == table_entries(),
            bs > 0,
            x == sub_bound(bs),
            x >= 0,
            base + count * bs <= usize::MAX,
            (se + 2 * table_entries() + table_entries() * x) * 8 <= usize::MAX,
            table_entries() <= used_entry_count <= table_entries() + descriptor_index * x,
            walk(regions@, se, base, bs, count, descriptor_index as int, used_entry_count as int).2,
            w0.0 == ranges@.subrange(out0, output_index as int)
                + walk(regions@, se, base, bs, count, descriptor_index as int, used_entry_count as int).0,
            w0.1 == walk(regions@, se, base, bs, count, descriptor_index as int, used_entry_count as int).1,
            0 <= out0 <= output_index,
            out_end == out0 + w0.0.len(),
            w0 == walk(regions@, se, base, bs, count, 0, table_entries()),
            output_index + walk(regions@, se, base, bs, count, descriptor_index as int, used_entry_count as int).0.len() == out_end,
            out_end <= N,
            ranges@.len() == N,
            ranges@.subrange(0, out0) == old_ranges.subrange(0, out0),
            ranges@.subrange(out_end, N as int) == old_ranges.subrange(out_end, N as int),
            se == start_entry,
            base == block_base_address,
            bs == block_size,
            count == descriptor_count,
        decreases count + 1 - descriptor_index,
    {
        let ghost d = descriptor_index as int;
        let ghost used = used_entry_count as int;
        let ghost wd = walk(regions@, se, base, bs, count, d, used);
        proof {
            vstd::arithmetic::mul::lemma_mul_inequality(d + 1, count, bs);
            vstd::arithmetic::mul::lemma_mul_is_distributive_add_other_way(bs, d, 1);
        }
        let block = (block_base_address + descriptor_index * block_size)..(block_base_address + (descriptor_index + 1) * block_size);
        let ghost s = block.start as int;
        let ghost e = block.end as int;
        proof {
            lemma_first_hit(regions@, s, e, 0);
            assert(s == base + d * bs);
            assert(e == s + bs);
        }
        match find_hit(regions, &block) {
            None => {},
            Some(region_index) => {
                let range = &regions[region_index].address_range;
                let attr = regions[region_index].attributes;
                if range.start <= block.start && block.end <= range.end {
                    // The block is fully covered by a region, insert block descriptor.

                    // Calculate description repetition count.
                    let repeat_count = min((range.end - block.end) / block_size, descriptor_count - descriptor_index - 1);
                    let lsb = if GRANULE_SIZE == block_size { 0b11 } else { 0b01 };
                    proof {
                        assert((d + se) * 8 <= usize::MAX) by (nonlinear_arith)
                            requires
                                d < count,
                                count == 512,
                                (se + 1024 + 512 * x) * 8 <= usize::MAX,
                                x >= 0,
                                se >= 0,
                        ;
                    }
                    let dr = DescriptorRange {
                        index: (descriptor_index + start_entry) * 8,
                        step_count: block_size | (repeat_count + 1),
                        value: block.start | attr | lsb,
                    };
                    let ghost rest = walk(regions@, se, base, bs, count, d + repeat_count + 1, used);
                    proof {
                        assert(dr == block_range(se, d, bs, repeat_count as int, s, attr));
                        assert(wd.0 == seq![dr] + rest.0);
                        assert(rest.1 == wd.1);
                    }
                    let ghost before = ranges@;
                    ranges[output_index] = dr;
                    proof {
                        lemma_write_next(before, out0, output_index as int, dr);
                    }
                    descriptor_index += repeat_count;
                    output_index += 1;
                    proof {
                        assert(w0.0 =~= ranges@.subrange(out0, output_index as int) + rest.0);
                        assert(ranges@.subrange(0, out0) =~= old_ranges.subrange(0, out0));
                        assert(ranges@.subrange(out_end, N as int) =~= old_ranges.subrange(out_end, N as int));
                        if d + repeat_count + 1 <= count {
                            vstd::arithmetic::mul::lemma_mul_inequality(d, d + repeat_count + 1, x);
                        }
                    }
                } else {
                    // There's a region that overlaps with the block but with a smaller granule,
                    // make it into a table descriptor.
                    let next_descriptor_count = GRANULE_SIZE / 8;
                    proof {
                        lemma_block_shrinks(bs);
                        assert(block_size / next_descriptor_count >= GRANULE_SIZE);
                        assert(x == entry_bound(bs / 512));
                        assert((d + se) * 8 <= usize::MAX && (se + used) * 8 <= usize::MAX) by (nonlinear_arith)
                            requires
                                d < count,
                                count == 512,
                                used <= 512 + d * x,
                                (se + 1024 + 512 * x) * 8 <= usize::MAX,
                                x >= 0,
                                se >= 0,
                        ;
                    }
                    let dr = DescriptorRange {
                        index: (descriptor_index + start_entry) * 8,
                        step_count: 0,
                        value: ((start_entry + used_entry_count) * 8) | 0b11,
                    };
                    let ghost sub = walk(regions@, se + used, s, bs / 512, 512, 0, 512);
                    let ghost rest = walk(regions@, se, base, bs, count, d + 1, used + sub.1);
                    proof {
                        assert(dr == table_range(se, d, se + used));
                        assert(wd.0 == seq![dr] + sub.0 + rest.0);
                        assert(sub.2 && rest.2);
                        lemma_walk_used(regions@, se + used, s, bs / 512, 512, 0, 512);
                        lemma_entry_bound(bs / 512);
                        assert(x == 512 + 512 * sub_bound(bs / 512));
                        assert((se + used + 1024 + 512 * sub_bound(bs / 512)) * 8 <= usize::MAX) by (nonlinear_arith)
                            requires
                                d < count,
                                count == 512,
                                used <= 512 + d * x,
                                x == 512 + 512 * sub_bound(bs / 512),
                                (se + 1024 + 512 * x) * 8 <= usize::MAX,
                                x >= 0,
                                se >= 0,
                        ;
                        assert(s + 512 * (bs / 512) <= e) by (nonlinear_arith)
                            requires
                                e == s + bs,
                                bs > 0,
                        ;
                    }
                    let ghost before = ranges@;
                    ranges[output_index] = dr;
                    let ghost mid = ranges@;
                    proof {
                        lemma_write_next(before, out0, output_index as int, dr);
                    }

                    // Create next level table.
                    let (new_entry_count, new_output_index) = build_ranges_for_table(
                        regions,
                        ranges,
                        output_index + 1,
                        start_entry + used_entry_count,
                        block.start,
                        block_size / next_descriptor_count,
                        next_descriptor_count,
                    );
                    proof {
                        assert(ranges@.subrange(out0, new_output_index as int) =~= mid.subrange(out0, output_index + 1) + sub.0);
                        assert(ranges@.subrange(0, out0) =~= old_ranges.subrange(0, out0));
                        assert(ranges@.subrange(out_end, N as int) =~= old_ranges.subrange(out_end, N as int));
                        assert(used + sub.1 <= 512 + (d + 1) * x) by (nonlinear_arith)
                            requires
                                used <= 512 + d * x,
                                sub.1 <= x,
                        ;
                    }
                    output_index = new_output_index;
                    used_entry_count += new_entry_count;
                    proof {
                        assert(w0.0 =~= ranges@.subrange(out0, output_index as int) + rest.0);
                    }
                }
            },
        }
        proof {
            assert(used_entry_count <= 512 + (d + 1) * x) by (nonlinear_arith)
                requires
                    used_entry_count <= 512 + d * x || used_entry_count <= 512 + (d + 1) * x,
                    x >= 0,
            ;
        }
        descriptor_index += 1;
        proof {
            assert(used_entry_count <= 512 + descriptor_index * x) by (nonlinear_arith)
                requires
                    used_entry_count <= 512 + (d + 1) * x,
                    descriptor_index >= d + 1,
                    x >= 0,
            ;
        }
    }
    proof {
        assert(ranges@ =~= old_ranges.subrange(0, out0) + w0.0 + old_ranges.subrange(out_end, N as int));
    }
    (used_entry_count, output_index)
}


/// The descriptor range that an unused slot of the list holds.
pub open spec fn empty_range() -> DescriptorRange {
    DescriptorRange { index: 0, step_count: 0, value: 0 }
}

/// The entry bounds of the root table's levels.
proof fn lemma_top_level_bounds()
    ensures
        sub_bound(TOP_LEVEL_BLOCK_SIZE as int) == 262656,
{
    assert(sub_bound(4096) == 0);
    assert(entry_bound(4096) == 512);
    assert(sub_bound(0x20_0000) == 512);
    assert(entry_bound(0x20_0000) == 262656);
    assert(sub_bound(0x4000_0000) == 262656);
}

/// Converts a list of memory regions into a list of `DescriptorRange`: returns the descriptor
/// ranges, followed by unused slots up to `N`, and the size in bytes of the page tables that
/// they describe. `N` is at least [`get_range_count`] of the regions; every table that a region
/// only partly covers a block of must have blocks of at least the granule size.
pub fn build_ranges<const N: usize>(regions: &[EarlyRegion]) -> (r: ([DescriptorRange; N], usize))
    requires
        spec_ranges(regions@).2,
        spec_range_count(regions@) <= N,
        address_space_fits(),
    ensures
        r.0@ == spec_ranges(regions@).0 + Seq::new((N - spec_ranges(regions@).0.len()) as nat, |i: int| empty_range()),
        r.1 == spec_ranges(regions@).1 * 8,
{
    let ghost w = spec_ranges(regions@);
    let mut ranges: [DescriptorRange; N] = vstd::array::array_fill_for_copy_types(
        DescriptorRange { index: 0, value: 0, step_count: 0 },
    );
    proof {
        lemma_count_walk(regions@, 0, 0, TOP_LEVEL_BLOCK_SIZE as int, TOP_LEVEL_DESCRIPTOR_COUNT as int, 0, table_entries());
        lemma_top_level_bounds();
        lemma_walk_used(regions@, 0, 0, TOP_LEVEL_BLOCK_SIZE as int, TOP_LEVEL_DESCRIPTOR_COUNT as int, 0, table_entries());
        assert(ranges@.len() == N);
    }
    let ghost before = ranges@;
    let (entry_count, _) = build_ranges_for_table(
        regions,
        &mut ranges,
        0,
        0,
        0,
        TOP_LEVEL_BLOCK_SIZE,
        TOP_LEVEL_DESCRIPTOR_COUNT,
    );
    proof {
        assert(before.subrange(w.0.len() as int, N as int) =~= Seq::new((N - w.0.len()) as nat, |i: int| empty_range()));
        assert(before.subrange(0, 0) =~= Seq::<DescriptorRange>::empty());
        assert(ranges@ =~= w.0 + Seq::new((N - w.0.len()) as nat, |i: int| empty_range()));
    }
    (ranges, entry_count * 8)
}

/// A count is not negative.
proof fn lemma_count_walk_nonneg(regions: Seq<EarlyRegion>, base: int, bs: int, count: int, d: int)
    ensures
        count_walk(regions, base, bs, count, d).0 >= 0,
    decreases bs, count + 1 - d,
{
    if d < 0 || d >= count || bs <= 0 {
    } else {
        let s = base + d * bs;
        let e = s + bs;
        lemma_first_hit(regions, s, e, 0);
        match first_hit(regions, s, e, 0) {
            None => lemma_count_walk_nonneg(regions, base, bs, count, d + 1),
            Some(i) => {
                let region = regions[i];
                if covers(region, s, e) {
                    let rep = min_int((region.address_range.end - e) / bs, count - d - 1);
                    assert(rep >= 0) by (nonlinear_arith)
                        requires
                            rep == min_int((region.address_range.end - e) / bs, count - d - 1),
                            region.address_range.end - e >= 0,
                            bs > 0,
                            count - d > 0,
                    ;
                    lemma_count_walk_nonneg(regions, base, bs, count, d + rep + 1);
                } else {
                    lemma_block_shrinks(bs);
                    lemma_count_walk_nonneg(regions, s, bs / table_entries(), table_entries(), 0);
                    lemma_count_walk_nonneg(regions, base, bs, count, d + 1);
                }
            },
        }
    }
}

/// Counts the descriptor ranges of a table and the tables below it, as
/// [`build_ranges_for_table`] would build them.
fn get_range_count_of_table(
    regions: &[EarlyRegion],
    block_base_address: usize,
    block_size: usize,
    descriptor_count: usize,
    granule_size: usize,
) -> (r: usize)
    requires
        count_walk(regions@, block_base_address as int, block_size as int, descriptor_count as int, 0).1,
        count_walk(regions@, block_base_address as int, block_size as int, descriptor_count as int, 0).0 <= usize::MAX,
        block_size > 0,
        descriptor_count == table_entries(),
        granule_size == GRANULE_SIZE,
        block_base_address + descriptor_count * block_size <= usize::MAX,
    ensures
        r == count_walk(regions@, block_base_address as int, block_size as int, descriptor_count as int, 0).0,
    decreases block_size,
{
    let ghost base = block_base_address as int;
    let ghost bs = block_size as int;
    let ghost cnt = descriptor_count as int;
    let ghost total = count_walk(regions@, base, bs, cnt, 0).0;
    let mut count: usize = 0;

    let mut descriptor_index: usize = 0;
    while descriptor_index < descriptor_count
        invariant
            descriptor_index <= cnt + 1,
            cnt == table_entries(),
            bs > 0,
            base + cnt * bs <= usize::MAX,
            granule_size == GRANULE_SIZE,
            count_walk(regions@, base, bs, cnt, descriptor_index as int).1,
            total == count + count_walk(regions@, base, bs, cnt, descriptor_index as int).0,
            total <= usize::MAX,
            total == count_walk(regions@, base, bs, cnt, 0).0,
            base == block_base_address,
            bs == block_size,
            cnt == descriptor_count,
        decreases cnt + 1 - descriptor_index,
    {
        let ghost d = descriptor_index as int;
        proof {
            vstd::arithmetic::mul::lemma_mul_inequality(d + 1, cnt, bs);
            vstd::arithmetic::mul::lemma_mul_is_distributive_add_other_way(bs, d, 1);
        }
        let block = (block_base_address + descriptor_index * block_size)..(block_base_address + (descriptor_index + 1) * block_size);
        let ghost s = block.start as int;
        let ghost e = block.end as int;
        proof {
            lemma_first_hit(regions@, s, e, 0);
        }
        match find_hit(regions, &block) {
            None => {},
            Some(region_index) => {
                let range = &regions[region_index].address_range;
                if range.start <= block.start && block.end <= range.end {
                    // The block is fully covered by a region, insert block descriptor.

                    // Calculate description repetition count.
                    let ghost rep = min_int((range.end - e) / bs, cnt - d - 1);
                    proof {
                        assert(rep >= 0) by (nonlinear_arith)
                            requires
                                rep == min_int((range.end - e) / bs, cnt - d - 1),
                                range.end - e >= 0,
                                bs > 0,
                                cnt - d > 0,
                        ;
                        lemma_count_walk_nonneg(regions@, base, bs, cnt, d + rep + 1);
                        assert(count_walk(regions@, base, bs, cnt, d).0 == count_walk(regions@, base, bs, cnt, d + rep + 1).0 + 1);
                    }
                    descriptor_index += min((range.end - block.end) / block_size, descriptor_count - descriptor_index - 1);
                    count += 1;
                } else {
                    // There's a region that overlaps with the block but with a smaller granule,
                    // make it into a table descriptor.
                    let next_descriptor_count = granule_size / 8;
                    proof {
                        lemma_block_shrinks(bs);
                        assert(block_size / next_descriptor_count >= granule_size);
                        assert(s + 512 * (bs / 512) <= e) by (nonlinear_arith)
                            requires
                                e == s + bs,
                                bs > 0,
                        ;
                        lemma_count_walk_nonneg(regions@, s, bs / 512, 512, 0);
                        lemma_count_walk_nonneg(regions@, base, bs, cnt, d + 1);
                        assert(count_walk(regions@, base, bs, cnt, d).0
                            == count_walk(regions@, s, bs / 512, 512, 0).0 + 1 + count_walk(regions@, base, bs, cnt, d + 1).0);
                    }
                    count += get_range_count_of_table(
                        regions,
                        block.start,
                        block_size / next_descriptor_count,
                        next_descriptor_count,
                        granule_size,
                    ) + 1;
                }
            },
        }
        descriptor_index += 1;
    }

    count
}

/// Calculates the number of descriptor ranges that [`build_ranges`] builds for the regions.
pub fn get_range_count(regions: &[EarlyRegion]) -> (r: usize)
    requires
        spec_ranges(regions@).2,
        address_space_fits(),
    ensures
        r == spec_range_count(regions@),
        r == spec_ranges(regions@).0.len(),
{
    proof {
        let w = spec_ranges(regions@);
        lemma_count_walk(regions@, 0, 0, TOP_LEVEL_BLOCK_SIZE as int, TOP_LEVEL_DESCRIPTOR_COUNT as int, 0, table_entries());
        lemma_top_level_bounds();
        lemma_walk_used(regions@, 0, 0, TOP_LEVEL_BLOCK_SIZE as int, TOP_LEVEL_DESCRIPTOR_COUNT as int, 0, table_entries());
        lemma_walk_len(regions@, 0, 0, TOP_LEVEL_BLOCK_SIZE as int, TOP_LEVEL_DESCRIPTOR_COUNT as int, 0, table_entries());
    }
    get_range_count_of_table(
        regions,
        0,
        TOP_LEVEL_BLOCK_SIZE,
        TOP_LEVEL_DESCRIPTOR_COUNT,
        GRANULE_SIZE,
    )
}

/// The number of descriptor ranges that [`get_range_count`] counts is the number that
/// [`build_ranges`] builds, and counting fails where building does.
pub proof fn lemma_range_count_matches(regions: Seq<EarlyRegion>)
    ensures
        spec_range_count(regions) == spec_ranges(regions).0.len(),
        count_walk(regions, 0, TOP_LEVEL_BLOCK_SIZE as int, TOP_LEVEL_DESCRIPTOR_COUNT as int, 0).1 == spec_ranges(regions).2,
{
    lemma_count_walk(regions, 0, 0, TOP_LEVEL_BLOCK_SIZE as int, TOP_LEVEL_DESCRIPTOR_COUNT as int, 0, table_entries());
}

} // verus!
