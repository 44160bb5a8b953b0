//! The RMM-EL3 Boot Manifest (v0.5): the platform boot information that EL3 hands to the RMM in
//! the shared page.
//!
//! The page is handled as its 512 little-endian 64-bit words, together with the physical address
//! of its first byte: every field of the manifest and of its lists fills whole words, and the lists
//! that follow the manifest in the page are referenced by their physical addresses.

use vstd::prelude::*;
use vstd::arithmetic::div_mod::{lemma_add_mod_noop, lemma_small_mod};

verus! {

/// Number of 64-bit words in the shared page that holds the manifest and its lists.
pub const PAGE_WORDS: usize = 512;

/// Number of 64-bit words of the manifest itself; its lists follow it in the page.
pub const MANIFEST_WORDS: usize = 21;

/// Word of the manifest holding the entry count of the root complex list.
pub const ROOT_COMPLEX_HEADER: usize = 17;

/// Value of the current manifest version, 0.5.
pub const RMM_BOOT_MANIFEST_VERSION: u32 = 0x0000_0005;

/// Two to the power of 64, the modulus of the checksums.
pub open spec fn word_modulus() -> int {
    0x1_0000_0000_0000_0000
}

/// The checksum that makes a sum of words, taken modulo 2^64, come to zero.
pub open spec fn negated(sum: int) -> u64 {
    ((word_modulus() - sum % word_modulus()) % word_modulus()) as u64
}

/// Versioning information used in the RMM boot process: the major version in bits [30:16] and the
/// minor version in bits [15:0].
#[derive(Clone, Copy, Debug, PartialEq, Eq, Structural)]
pub struct RmmBootManifestVersion(pub u32);

impl RmmBootManifestVersion {
    /// The version with the given major (bits above the fifteenth dropped) and minor numbers.
    pub fn new(major: u16, minor: u16) -> (r: Self)
        ensures
            r.0 == (((major as u32) & 0x7fff) << 16u32) | (minor as u32),
    {
        Self((((major as u32) & 0x7fff) << 16u32) | (minor as u32))
    }

    /// The major version number.
    pub fn major(&self) -> (r: u16)
        ensures
            r == ((self.0 >> 16u32) & 0x7fff) as u16,
    {
        ((self.0 >> 16u32) & 0x7fff) as u16
    }

    /// The minor version number.
    pub fn minor(&self) -> (r: u16)
        ensures
            r == (self.0 & 0xffff) as u16,
    {
        (self.0 & 0xffff) as u16
    }
}

/// A version built from a major and a minor number gives them back, the major number cut to its
/// fifteen low bits.
pub proof fn lemma_version_round_trip(major: u16, minor: u16)
    ensures
        ((((((major as u32) & 0x7fff) << 16u32) | (minor as u32)) >> 16u32) & 0x7fff) as u16
            == major & 0x7fff,
        (((((major as u32) & 0x7fff) << 16u32) | (minor as u32)) & 0xffff) as u16 == minor,
{
    assert(((((((major as u32) & 0x7fff) << 16u32) | (minor as u32)) >> 16u32) & 0x7fff) as u16
        == major & 0x7fff) by (bit_vector);
    assert((((((major as u32) & 0x7fff) << 16u32) | (minor as u32)) & 0xffff) as u16 == minor)
        by (bit_vector);
}

/// The page that holds the given words where the map has them, and zero elsewhere.
pub open spec fn page_with(writes: Map<int, u64>) -> Seq<u64> {
    Seq::new(PAGE_WORDS as nat, |i: int| if writes.dom().contains(i) { writes[i] } else { 0u64 })
}

/// The words written so far and the next free word of the page.
pub type Placement = (Map<int, u64>, int);

/// Places a checksummed list of `n` items of `item_words` words each, whose header is at word
/// `header`, at the next free word: its header holds the count, the address of the first item and
/// the checksum of the zeroed list. An empty list takes no room and keeps a zero header.
pub open spec fn place_list(base: u64, st: Placement, header: int, n: int, item_words: int) -> Placement {
    if n == 0 {
        st
    } else {
        let ptr = base + 8 * st.1;
        (
            st.0.insert(header, n as u64).insert(header + 1, ptr as u64).insert(
                header + 2,
                negated(n + ptr),
            ),
            st.1 + n * item_words,
        )
    }
}

/// The manifest header with its version, and its five checksummed lists of plain items placed
/// after it in order: DRAM banks, consoles, non-coherent and coherent device regions, SMMUs.
pub open spec fn flat_layout(
    base: u64,
    dram: int,
    console: int,
    ncoh: int,
    coh: int,
    smmu: int,
) -> Placement {
    let st = (map![0int => RMM_BOOT_MANIFEST_VERSION as u64], MANIFEST_WORDS as int);
    let st = place_list(base, st, 2, dram, 2);
    let st = place_list(base, st, 5, console, 6);
    let st = place_list(base, st, 8, ncoh, 2);
    let st = place_list(base, st, 11, coh, 2);
    place_list(base, st, 14, smmu, 2)
}

/// Words written, next free word and sum of the checksummed words, while the nested lists of the
/// root complexes are placed.
pub type NestedPlacement = (Map<int, u64>, int, int);

/// After the first `p` root ports of a complex, whose port list starts at word `ports_at`: each
/// port with BDF mappings holds their count in its upper half word and the address of its
/// mapping list, placed at the next free word (one word per mapping).
pub open spec fn ports_layout(
    base: u64,
    ports: Seq<usize>,
    p: int,
    ports_at: int,
    st: NestedPlacement,
) -> NestedPlacement
    decreases p,
{
    if p <= 0 {
        st
    } else {
        let prev = ports_layout(base, ports, p - 1, ports_at, st);
        let n = ports[p - 1] as int;
        if n == 0 {
            prev
        } else {
            let info = ports_at + 2 * (p - 1);
            let ptr = base + 8 * prev.1;
            (
                prev.0.insert(info, (n * 0x1_0000_0000) as u64).insert(info + 1, ptr as u64),
                prev.1 + n,
                prev.2 + n + ptr,
            )
        }
    }
}

/// After the first `j` root complexes, whose list starts at word `complexes_at`: each complex with
/// root ports holds their count in its upper half word and the address of its port list (two words
/// per port), placed at the next free word and followed by the mapping lists of its ports.
pub open spec fn complexes_layout(
    base: u64,
    complexes: Seq<Seq<usize>>,
    j: int,
    complexes_at: int,
    st: NestedPlacement,
) -> NestedPlacement
    decreases j,
{
    if j <= 0 {
        st
    } else {
        let prev = complexes_layout(base, complexes, j - 1, complexes_at, st);
        let n = complexes[j - 1].len() as int;
        if n == 0 {
            prev
        } else {
            let info = complexes_at + 3 * (j - 1);
            let ptr = base + 8 * prev.1;
            let with_info = (
                prev.0.insert(info + 1, (n * 0x1_0000_0000) as u64).insert(info + 2, ptr as u64),
                prev.1 + 2 * n,
                prev.2 + n + ptr,
            );
            ports_layout(base, complexes[j - 1], n, prev.1, with_info)
        }
    }
}

/// The root complex list placed after the header and its checksummed lists, then its complexes'
/// port lists and their mapping lists, with the checksum of the root complex list over all of
/// them. An empty root complex list takes no room and keeps a zero header.
pub open spec fn with_root_complexes(base: u64, flat: Placement, complexes: Seq<Seq<usize>>) -> Placement {
    let k = complexes.len() as int;
    if k == 0 {
        flat
    } else {
        let ptr = base + 8 * flat.1;
        let st = (
            flat.0.insert(ROOT_COMPLEX_HEADER as int, k as u64).insert(
                ROOT_COMPLEX_HEADER + 2,
                ptr as u64,
            ),
            flat.1 + 3 * k,
            k + ptr,
        );
        let done = complexes_layout(base, complexes, k, flat.1, st);
        (done.0.insert(ROOT_COMPLEX_HEADER + 3, negated(done.2)), done.1)
    }
}

/// The whole manifest: the header with its checksummed lists, then the root complex list and its
/// nested lists.
pub open spec fn manifest_layout(
    base: u64,
    dram: int,
    console: int,
    ncoh: int,
    coh: int,
    smmu: int,
    complexes: Seq<Seq<usize>>,
) -> Placement {
    with_root_complexes(base, flat_layout(base, dram, console, ncoh, coh, smmu), complexes)
}

/// The sizes of the root complexes' port lists as sequences.
pub open spec fn complex_sizes(root_complex_size: Seq<Vec<usize>>) -> Seq<Seq<usize>> {
    root_complex_size.map_values(|v: Vec<usize>| v@)
}

/// Adds a word to a sum of words taken modulo 2^64.
fn add_words(a: u64, b: u64) -> (r: u64)
    ensures
        r == (a + b) % word_modulus(),
{
    let r = a.wrapping_add(b);
    proof {
        let m = word_modulus();
        if a + b > u64::MAX {
            vstd::arithmetic::div_mod::lemma_fundamental_div_mod(a + b, m);
            vstd::arithmetic::div_mod::lemma_mod_pos_bound(a + b, m);
        } else {
            lemma_small_mod((a + b) as nat, m as nat);
        }
    }
    r
}

/// Adding a word to a sum kept modulo 2^64 keeps it the sum modulo 2^64.
proof fn lemma_accumulate(s: int, acc: u64, x: u64)
    requires
        s >= 0,
        acc == s % word_modulus(),
    ensures
        (acc + x) % word_modulus() == (s + x) % word_modulus(),
{
    let m = word_modulus();
    lemma_add_mod_noop(s, x as int, m);
    lemma_small_mod(x as nat, m as nat);
    lemma_add_mod_noop(acc as int, x as int, m);
    lemma_small_mod(acc as nat, m as nat);
}

/// The checksum of a sum, from its residue modulo 2^64.
proof fn lemma_negated(s: int, r: u64)
    requires
        r == s % word_modulus(),
    ensures
        negated(s) == (if r == 0 { 0 } else { u64::MAX - r + 1 }),
{
    let m = word_modulus();
    if r == 0 {
        assert(m % m == 0) by {
            vstd::arithmetic::div_mod::lemma_mod_self_0(m);
        }
    } else {
        lemma_small_mod((m - r) as nat, m as nat);
    }
}

/// The checksum of a zeroed list, from the words that its header holds.
fn list_checksum(sum: u64) -> (r: u64)
    ensures
        r == negated(sum as int),
{
    proof {
        lemma_small_mod(sum as nat, word_modulus() as nat);
        lemma_negated(sum as int, sum);
    }
    if sum == 0 {
        0
    } else {
        u64::MAX - sum + 1
    }
}

/// The next free word and the sum only grow as root ports are placed.
proof fn lemma_ports_grow(
    base: u64,
    ports: Seq<usize>,
    p1: int,
    p2: int,
    ports_at: int,
    st: NestedPlacement,
)
    requires
        0 <= p1 <= p2,
        st.1 >= 0,
    ensures
        st.1 <= ports_layout(base, ports, p1, ports_at, st).1 <= ports_layout(
            base,
            ports,
            p2,
            ports_at,
            st,
        ).1,
        st.2 <= ports_layout(base, ports, p1, ports_at, st).2 <= ports_layout(
            base,
            ports,
            p2,
            ports_at,
            st,
        ).2,
    decreases p2,
{
    if p2 > 0 {
        let p1_before = if p1 == p2 { p2 - 1 } else { p1 };
        lemma_ports_grow(base, ports, p1_before, p2 - 1, ports_at, st);
    }
}

/// The next free word and the sum only grow as root complexes are placed.
proof fn lemma_complexes_grow(
    base: u64,
    complexes: Seq<Seq<usize>>,
    j1: int,
    j2: int,
    complexes_at: int,
    st: NestedPlacement,
)
    requires
        0 <= j1 <= j2,
        st.1 >= 0,
    ensures
        st.1 <= complexes_layout(base, complexes, j1, complexes_at, st).1 <= complexes_layout(
            base,
            complexes,
            j2,
            complexes_at,
            st,
        ).1,
        st.2 <= complexes_layout(base, complexes, j1, complexes_at, st).2 <= complexes_layout(
            base,
            complexes,
            j2,
            complexes_at,
            st,
        ).2,
    decreases j2,
{
    if j2 > 0 {
        let j1_before = if j1 == j2 { j2 - 1 } else { j1 };
        lemma_complexes_grow(base, complexes, j1_before, j2 - 1, complexes_at, st);
        let prev = complexes_layout(base, complexes, j2 - 1, complexes_at, st);
        let n = complexes[j2 - 1].len() as int;
        if n != 0 {
            let ptr = base + 8 * prev.1;
            let with_info = (
                prev.0.insert(complexes_at + 3 * (j2 - 1) + 1, (n * 0x1_0000_0000) as u64).insert(
                    complexes_at + 3 * (j2 - 1) + 2,
                    ptr as u64,
                ),
                prev.1 + 2 * n,
                prev.2 + n + ptr,
            );
            lemma_ports_grow(base, complexes[j2 - 1], 0, n, prev.1, with_info);
        }
    }
}

/// A sum of zero words is zero.
proof fn lemma_words_sum_zero(s: Seq<u64>)
    requires
        forall|i: int| 0 <= i < s.len() ==> s[i] == 0,
    ensures
        words_sum(s) == 0,
    decreases s.len(),
{
    if s.len() > 0 {
        lemma_words_sum_zero(s.drop_last());
    }
}

/// Placing root ports writes no word before their port list.
proof fn lemma_ports_keys(base: u64, ports: Seq<usize>, p: int, ports_at: int, st: NestedPlacement)
    ensures
        forall|key: int|
            ports_layout(base, ports, p, ports_at, st).0.dom().contains(key) ==> st.0.dom().contains(
                key,
            ) || key >= ports_at,
    decreases p,
{
    if p > 0 {
        lemma_ports_keys(base, ports, p - 1, ports_at, st);
    }
}

/// Placing root complexes writes no word before their list.
proof fn lemma_complexes_keys(
    base: u64,
    complexes: Seq<Seq<usize>>,
    j: int,
    complexes_at: int,
    st: NestedPlacement,
)
    requires
        st.1 >= complexes_at,
        st.1 >= 0,
    ensures
        forall|key: int|
            complexes_layout(base, complexes, j, complexes_at, st).0.dom().contains(key)
                ==> st.0.dom().contains(key) || key >= complexes_at,
    decreases j,
{
    if j > 0 {
        lemma_complexes_keys(base, complexes, j - 1, complexes_at, st);
        lemma_complexes_grow(base, complexes, j - 1, j - 1, complexes_at, st);
        let prev = complexes_layout(base, complexes, j - 1, complexes_at, st);
        let n = complexes[j - 1].len() as int;
        if n != 0 {
            let ptr = base + 8 * prev.1;
            let with_info = (
                prev.0.insert(complexes_at + 3 * (j - 1) + 1, (n * 0x1_0000_0000) as u64).insert(
                    complexes_at + 3 * (j - 1) + 2,
                    ptr as u64,
                ),
                prev.1 + 2 * n,
                prev.2 + n + ptr,
            );
            lemma_ports_keys(base, complexes[j - 1], n, prev.1, with_info);
            assert forall|key: int|
                complexes_layout(base, complexes, j, complexes_at, st).0.dom().contains(key)
                    implies st.0.dom().contains(key) || key >= complexes_at by {
                if !with_info.0.dom().contains(key) {
                    assert(key >= prev.1);
                } else if !prev.0.dom().contains(key) {
                    assert(key >= complexes_at);
                } else {
                    assert(prev.0.dom().contains(key));
                }
            }
        }
    }
}

/// The first word of a checksummed list's items in a new manifest with lists of the given sizes.
pub open spec fn new_list_first(dram: int, console: int, ncoh: int, coh: int, list: ManifestListKind) -> int {
    match list {
        ManifestListKind::Dram => 21,
        ManifestListKind::Console => 21 + 2 * dram,
        ManifestListKind::NcohRegion => 21 + 2 * dram + 6 * console,
        ManifestListKind::CohRegion => 21 + 2 * dram + 6 * console + 2 * ncoh,
        ManifestListKind::Smmu => 21 + 2 * dram + 6 * console + 2 * ncoh + 2 * coh,
    }
}

/// The size of a checksummed list among the sizes of a new manifest's lists.
pub open spec fn new_list_size(
    dram: int,
    console: int,
    ncoh: int,
    coh: int,
    smmu: int,
    list: ManifestListKind,
) -> int {
    match list {
        ManifestListKind::Dram => dram,
        ManifestListKind::Console => console,
        ManifestListKind::NcohRegion => ncoh,
        ManifestListKind::CohRegion => coh,
        ManifestListKind::Smmu => smmu,
    }
}

#[verifier::spinoff_prover]
/// In a new manifest, each checksummed list of nonzero size lies in the page after the manifest,
/// holds its size and the address of its first item, and its checksum holds over its zeroed items.
pub proof fn lemma_new_lists_checksummed(
    base: u64,
    dram: usize,
    console: usize,
    ncoh: usize,
    coh: usize,
    smmu: usize,
    complexes: Seq<Seq<usize>>,
    list: ManifestListKind,
)
    requires
        base + 0x1000 <= u64::MAX,
        manifest_layout(base, dram as int, console as int, ncoh as int, coh as int, smmu as int, complexes).1
            <= PAGE_WORDS,
        new_list_size(dram as int, console as int, ncoh as int, coh as int, smmu as int, list) != 0,
    ensures
        ({
            let page = page_with(
                manifest_layout(base, dram as int, console as int, ncoh as int, coh as int, smmu as int, complexes).0,
            );
            &&& list_in_page(page, base, list)
            &&& page[list.spec_header()] == new_list_size(
                dram as int,
                console as int,
                ncoh as int,
                coh as int,
                smmu as int,
                list,
            )
            &&& page[list.spec_header() + 1] == base + 8 * new_list_first(
                dram as int,
                console as int,
                ncoh as int,
                coh as int,
                list,
            )
            &&& list_checksum_holds(page, base, list)
        }),
{
    let flat = flat_layout(base, dram as int, console as int, ncoh as int, coh as int, smmu as int);
    let layout = manifest_layout(base, dram as int, console as int, ncoh as int, coh as int, smmu as int, complexes);
    let page = page_with(layout.0);
    let n = new_list_size(dram as int, console as int, ncoh as int, coh as int, smmu as int, list);
    let first = new_list_first(dram as int, console as int, ncoh as int, coh as int, list);
    let h = list.spec_header();
    let ptr = base + 8 * first;
    lemma_flat_list(base, dram, console, ncoh, coh, smmu, list);
    lemma_flat_keys(base, dram, console, ncoh, coh, smmu);
    lemma_layout_over_flat(base, flat, complexes);
    assert(page[h] == n as u64);
    assert(page[h + 1] == ptr as u64);
    assert(page[h + 2] == negated(n + ptr));
    assert((ptr - base) / 8 == first);
    assert(n <= n * list.spec_item_words()) by (nonlinear_arith)
        requires
            list.spec_item_words() >= 1,
            n >= 0,
    ;
    assert(21 <= first && first + n * list.spec_item_words() <= flat.1) by {
        match list {
            ManifestListKind::Dram => {},
            ManifestListKind::Console => {},
            ManifestListKind::NcohRegion => {},
            ManifestListKind::CohRegion => {},
            ManifestListKind::Smmu => {},
        }
    }
    let region = page.subrange(first, first + n * list.spec_item_words());
    assert forall|i: int| 0 <= i < region.len() implies region[i] == 0 by {
        assert(!layout.0.dom().contains(first + i));
    }
    lemma_words_sum_zero(region);
    lemma_negated_cancels(n + ptr);
}

/// The header and its checksummed lists: where the lists end, and what the header of a list of
/// nonzero size holds.
proof fn lemma_flat_list(
    base: u64,
    dram: usize,
    console: usize,
    ncoh: usize,
    coh: usize,
    smmu: usize,
    list: ManifestListKind,
)
    requires
        new_list_size(dram as int, console as int, ncoh as int, coh as int, smmu as int, list) != 0,
    ensures
        ({
            let flat = flat_layout(base, dram as int, console as int, ncoh as int, coh as int, smmu as int);
            let n = new_list_size(dram as int, console as int, ncoh as int, coh as int, smmu as int, list);
            let ptr = base + 8 * new_list_first(dram as int, console as int, ncoh as int, coh as int, list);
            let h = list.spec_header();
            &&& flat.0.dom().contains(h) && flat.0[h] == n as u64
            &&& flat.0.dom().contains(h + 1) && flat.0[h + 1] == ptr as u64
            &&& flat.0.dom().contains(h + 2) && flat.0[h + 2] == negated(n + ptr)
        }),
{
}

/// The root complex list and its nested lists keep what the header and its checksummed lists
/// wrote, and write nothing between the end of the header and the end of the checksummed lists.
proof fn lemma_layout_over_flat(base: u64, flat: Placement, complexes: Seq<Seq<usize>>)
    requires
        flat.1 >= MANIFEST_WORDS,
        forall|key: int| flat.0.dom().contains(key) ==> 0 <= key < 17,
    ensures
        ({
            let layout = with_root_complexes(base, flat, complexes);
            &&& layout.1 >= flat.1
            &&& forall|key: int| layout.0.dom().contains(key) ==> key < 21 || key >= flat.1
            &&& forall|key: int|
                flat.0.dom().contains(key) ==> layout.0.dom().contains(key) && layout.0[key]
                    == flat.0[key]
        }),
{
    let layout = with_root_complexes(base, flat, complexes);
    let k = complexes.len() as int;
    if k != 0 {
        let rc_ptr = base + 8 * flat.1;
        let st = (
            flat.0.insert(ROOT_COMPLEX_HEADER as int, k as u64).insert(ROOT_COMPLEX_HEADER + 2, rc_ptr as u64),
            flat.1 + 3 * k,
            k + rc_ptr,
        );
        lemma_complexes_keys(base, complexes, k, flat.1, st);
        lemma_complexes_grow(base, complexes, k, k, flat.1, st);
        let done = complexes_layout(base, complexes, k, flat.1, st);
        assert forall|key: int| layout.0.dom().contains(key) implies key < 21 || key >= flat.1 by {
            if key != ROOT_COMPLEX_HEADER + 3 {
                assert(done.0.dom().contains(key));
                if key < flat.1 {
                    assert(st.0.dom().contains(key));
                }
            }
        }
        assert(layout.0 == done.0.insert(ROOT_COMPLEX_HEADER + 3, negated(done.2)));
        assert forall|key: int| #[trigger] flat.0.dom().contains(key) implies layout.0.dom().contains(key) by {
            lemma_complexes_values(base, complexes, k, flat.1, st, key);
        }
        assert forall|key: int| #[trigger] flat.0.dom().contains(key) implies layout.0[key] == flat.0[key] by {
            lemma_complexes_values(base, complexes, k, flat.1, st, key);
        }
    } else {
        assert(layout == flat);
    }
}

/// Where the header and its checksummed lists end, and the words they write.
proof fn lemma_flat_keys(base: u64, dram: usize, console: usize, ncoh: usize, coh: usize, smmu: usize)
    ensures
        ({
            let flat = flat_layout(base, dram as int, console as int, ncoh as int, coh as int, smmu as int);
            &&& flat.1 == 21 + 2 * dram + 6 * console + 2 * ncoh + 2 * coh + 2 * smmu
            &&& forall|key: int| flat.0.dom().contains(key) ==> 0 <= key < 17
        }),
{
}

/// Placing root complexes keeps the words written before their list.
proof fn lemma_complexes_values(
    base: u64,
    complexes: Seq<Seq<usize>>,
    j: int,
    complexes_at: int,
    st: NestedPlacement,
    key: int,
)
    requires
        st.1 >= complexes_at,
        st.1 >= 0,
        key < complexes_at,
        st.0.dom().contains(key),
    ensures
        complexes_layout(base, complexes, j, complexes_at, st).0.dom().contains(key),
        complexes_layout(base, complexes, j, complexes_at, st).0[key] == st.0[key],
    decreases j,
{
    if j > 0 {
        lemma_complexes_values(base, complexes, j - 1, complexes_at, st, key);
        lemma_complexes_grow(base, complexes, j - 1, j - 1, complexes_at, st);
        let prev = complexes_layout(base, complexes, j - 1, complexes_at, st);
        let n = complexes[j - 1].len() as int;
        if n != 0 {
            let ptr = base + 8 * prev.1;
            let with_info = (
                prev.0.insert(complexes_at + 3 * (j - 1) + 1, (n * 0x1_0000_0000) as u64).insert(
                    complexes_at + 3 * (j - 1) + 2,
                    ptr as u64,
                ),
                prev.1 + 2 * n,
                prev.2 + n + ptr,
            );
            lemma_ports_values(base, complexes[j - 1], n, prev.1, with_info, key);
        }
    }
}

/// Placing root ports keeps the words written before their port list.
proof fn lemma_ports_values(
    base: u64,
    ports: Seq<usize>,
    p: int,
    ports_at: int,
    st: NestedPlacement,
    key: int,
)
    requires
        key < ports_at,
        st.0.dom().contains(key),
    ensures
        ports_layout(base, ports, p, ports_at, st).0.dom().contains(key),
        ports_layout(base, ports, p, ports_at, st).0[key] == st.0[key],
    decreases p,
{
    if p > 0 {
        lemma_ports_values(base, ports, p - 1, ports_at, st, key);
    }
}

/// A word whose two 32-bit halves are swapped: how a word that packs a 32-bit count in its upper
/// half, after smaller fields in its lower half, enters the sum of the root complex list.
pub open spec fn swap_halves(w: u64) -> int {
    (w % 0x1_0000_0000) * 0x1_0000_0000 + w / 0x1_0000_0000
}

/// The index of the word at a physical address, in the page at `base`.
pub open spec fn word_index(base: u64, addr: u64) -> int {
    (addr - base) / 8
}

/// The sum of `n` consecutive words of the page from word `at`.
pub open spec fn words_from(page: Seq<u64>, at: int, n: int) -> int
    decreases n,
{
    if n <= 0 {
        0
    } else {
        words_from(page, at, n - 1) + page[at + n - 1]
    }
}

/// What the root port at word `q` adds to the sum of the root complex list: its packed
/// identifier and count, the address of its mapping list, and the words of its mappings.
pub open spec fn root_port_sum(page: Seq<u64>, base: u64, q: int) -> int {
    swap_halves(page[q]) + page[q + 1] + words_from(
        page,
        word_index(base, page[q + 1]),
        (page[q] / 0x1_0000_0000) as int,
    )
}

/// What the first `n` root ports of a port list at word `at` add to the sum.
pub open spec fn root_ports_sum(page: Seq<u64>, base: u64, at: int, n: int) -> int
    decreases n,
{
    if n <= 0 {
        0
    } else {
        root_ports_sum(page, base, at, n - 1) + root_port_sum(page, base, at + 2 * (n - 1))
    }
}

/// What the root complex at word `c` adds to the sum: its ECAM base, its packed segment and
/// count, the address of its port list, and what its ports add.
pub open spec fn root_complex_sum(page: Seq<u64>, base: u64, c: int) -> int {
    page[c] + swap_halves(page[c + 1]) + page[c + 2] + root_ports_sum(
        page,
        base,
        word_index(base, page[c + 2]),
        (page[c + 1] / 0x1_0000_0000) as int,
    )
}

/// What the first `n` root complexes of a complex list at word `at` add to the sum.
pub open spec fn root_complexes_sum(page: Seq<u64>, base: u64, at: int, n: int) -> int
    decreases n,
{
    if n <= 0 {
        0
    } else {
        root_complexes_sum(page, base, at, n - 1) + root_complex_sum(page, base, at + 3 * (n - 1))
    }
}

/// The sum over the root complex list: its header words and everything that the list reaches
/// through its pointers, its complexes, their ports and their mappings.
pub open spec fn root_complex_list_sum(page: Seq<u64>, base: u64) -> int {
    let h = ROOT_COMPLEX_HEADER as int;
    page[h] + swap_halves(page[h + 1]) + page[h + 2] + root_complexes_sum(
        page,
        base,
        word_index(base, page[h + 2]),
        page[h] as int,
    )
}

/// A count packed in the upper half of a word, with zero below it.
proof fn lemma_packed_count(n: int)
    requires
        0 < n < 0x1_0000_0000,
    ensures
        ((n * 0x1_0000_0000) as u64) as int == n * 0x1_0000_0000,
        swap_halves((n * 0x1_0000_0000) as u64) == n,
        ((n * 0x1_0000_0000) as u64) / 0x1_0000_0000 == n,
{
    let d: int = 0x1_0000_0000;
    assert(n * d < 0x1_0000_0000_0000_0000) by (nonlinear_arith)
        requires
            0 < n < 0x1_0000_0000,
            d == 0x1_0000_0000,
    ;
    vstd::arithmetic::div_mod::lemma_mod_multiples_basic(n, d);
    vstd::arithmetic::div_mod::lemma_div_multiples_vanish(n, d);
    assert(d * n == n * d) by (nonlinear_arith);
}

/// A sum of zero words is zero.
proof fn lemma_words_from_zero(page: Seq<u64>, at: int, n: int)
    requires
        forall|i: int| at <= i < at + n ==> page[i] == 0,
    ensures
        words_from(page, at, n) == 0,
    decreases n,
{
    if n > 0 {
        lemma_words_from_zero(page, at, n - 1);
    }
}

/// Placing root ports writes only their own info words, besides what was written before.
proof fn lemma_ports_keys_within(base: u64, ports: Seq<usize>, p: int, ports_at: int, st: NestedPlacement)
    ensures
        forall|key: int|
            ports_layout(base, ports, p, ports_at, st).0.dom().contains(key) ==> st.0.dom().contains(
                key,
            ) || ports_at <= key < ports_at + 2 * p,
    decreases p,
{
    if p > 0 {
        lemma_ports_keys_within(base, ports, p - 1, ports_at, st);
    }
}

/// Placing more root ports keeps every word outside the info words of those ports.
proof fn lemma_ports_persist(
    base: u64,
    ports: Seq<usize>,
    p1: int,
    p2: int,
    ports_at: int,
    st: NestedPlacement,
    key: int,
)
    requires
        0 <= p1 <= p2,
        key < ports_at + 2 * p1 || key >= ports_at + 2 * p2,
    ensures
        ports_layout(base, ports, p2, ports_at, st).0.dom().contains(key) == ports_layout(
            base,
            ports,
            p1,
            ports_at,
            st,
        ).0.dom().contains(key),
        ports_layout(base, ports, p1, ports_at, st).0.dom().contains(key) ==> ports_layout(
            base,
            ports,
            p2,
            ports_at,
            st,
        ).0[key] == ports_layout(base, ports, p1, ports_at, st).0[key],
    decreases p2,
{
    if p2 > p1 {
        lemma_ports_persist(base, ports, p1, p2 - 1, ports_at, st, key);
    }
}

/// Every word written while placing root complexes lies before the next free word.
proof fn lemma_complexes_keys_below(
    base: u64,
    complexes: Seq<Seq<usize>>,
    j: int,
    complexes_at: int,
    st: NestedPlacement,
)
    requires
        0 <= j <= complexes.len(),
        complexes_at >= 0,
        st.1 >= complexes_at + 3 * complexes.len(),
        forall|key: int| st.0.dom().contains(key) ==> key < st.1,
    ensures
        forall|key: int|
            complexes_layout(base, complexes, j, complexes_at, st).0.dom().contains(key) ==> key
                < complexes_layout(base, complexes, j, complexes_at, st).1,
    decreases j,
{
    if j > 0 {
        lemma_complexes_keys_below(base, complexes, j - 1, complexes_at, st);
        lemma_complexes_grow(base, complexes, j - 1, j - 1, complexes_at, st);
        let prev = complexes_layout(base, complexes, j - 1, complexes_at, st);
        let n = complexes[j - 1].len() as int;
        if n != 0 {
            let ptr = base + 8 * prev.1;
            let with_info = (
                prev.0.insert(complexes_at + 3 * (j - 1) + 1, (n * 0x1_0000_0000) as u64).insert(
                    complexes_at + 3 * (j - 1) + 2,
                    ptr as u64,
                ),
                prev.1 + 2 * n,
                prev.2 + n + ptr,
            );
            let cur = complexes_layout(base, complexes, j, complexes_at, st);
            assert(cur == ports_layout(base, complexes[j - 1], n, prev.1, with_info));
            lemma_ports_keys_within(base, complexes[j - 1], n, prev.1, with_info);
            lemma_ports_grow(base, complexes[j - 1], n, n, prev.1, with_info);
            assert forall|key: int| cur.0.dom().contains(key) implies key < cur.1 by {
                if !with_info.0.dom().contains(key) {
                    assert(prev.1 <= key < prev.1 + 2 * n);
                } else if !prev.0.dom().contains(key) {
                    assert(key < complexes_at + 3 * complexes.len());
                } else {
                    assert(key < prev.1);
                }
            }
        }
    }
}

/// Placing more root complexes keeps every word before the next free word that is not an info
/// word of one of those complexes.
proof fn lemma_complexes_persist(
    base: u64,
    complexes: Seq<Seq<usize>>,
    j1: int,
    j2: int,
    complexes_at: int,
    st: NestedPlacement,
    key: int,
)
    requires
        0 <= j1 <= j2 <= complexes.len(),
        st.1 >= 0,
        st.1 >= complexes_at + 3 * complexes.len(),
        key < complexes_layout(base, complexes, j1, complexes_at, st).1,
        key <= complexes_at + 3 * j1 || key >= complexes_at + 3 * j2 || (key - complexes_at) % 3
            == 0,
    ensures
        complexes_layout(base, complexes, j2, complexes_at, st).0.dom().contains(key)
            == complexes_layout(base, complexes, j1, complexes_at, st).0.dom().contains(key),
        complexes_layout(base, complexes, j1, complexes_at, st).0.dom().contains(key)
            ==> complexes_layout(base, complexes, j2, complexes_at, st).0[key] == complexes_layout(
            base,
            complexes,
            j1,
            complexes_at,
            st,
        ).0[key],
    decreases j2,
{
    if j2 > j1 {
        lemma_complexes_persist(base, complexes, j1, j2 - 1, complexes_at, st, key);
        lemma_complexes_grow(base, complexes, j1, j2 - 1, complexes_at, st);
        let prev = complexes_layout(base, complexes, j2 - 1, complexes_at, st);
        let n = complexes[j2 - 1].len() as int;
        if n != 0 {
            let ptr = base + 8 * prev.1;
            let with_info = (
                prev.0.insert(complexes_at + 3 * (j2 - 1) + 1, (n * 0x1_0000_0000) as u64).insert(
                    complexes_at + 3 * (j2 - 1) + 2,
                    ptr as u64,
                ),
                prev.1 + 2 * n,
                prev.2 + n + ptr,
            );
            assert(key != complexes_at + 3 * (j2 - 1) + 1 && key != complexes_at + 3 * (j2 - 1) + 2);
            lemma_ports_keys(base, complexes[j2 - 1], n, prev.1, with_info);
            if with_info.0.dom().contains(key) {
                lemma_ports_values(base, complexes[j2 - 1], n, prev.1, with_info, key);
            }
        }
    }
}

/// The sum over the first `p` root ports of a port list, read from a page that holds the words
/// that the placement of all its ports wrote, is the sum that the placement accumulated.
proof fn lemma_ports_walk(
    page: Seq<u64>,
    base: u64,
    ports: Seq<usize>,
    p: int,
    ports_at: int,
    st: NestedPlacement,
)
    requires
        0 <= p <= ports.len(),
        ports_at >= 0,
        st.1 == ports_at + 2 * ports.len(),
        forall|key: int| st.0.dom().contains(key) ==> key < ports_at,
        ports_layout(base, ports, ports.len() as int, ports_at, st).1 <= PAGE_WORDS,
        base + 0x1000 <= u64::MAX,
        forall|i: int|
            ports_at <= i < ports_layout(base, ports, ports.len() as int, ports_at, st).1 ==> page[i]
                == page_with(ports_layout(base, ports, ports.len() as int, ports_at, st).0)[i],
    ensures
        root_ports_sum(page, base, ports_at, p) == ports_layout(base, ports, p, ports_at, st).2
            - st.2,
    decreases p,
{
    if p > 0 {
        let all = ports.len() as int;
        let last = ports_layout(base, ports, all, ports_at, st);
        let prev = ports_layout(base, ports, p - 1, ports_at, st);
        let cur = ports_layout(base, ports, p, ports_at, st);
        let q = ports_at + 2 * (p - 1);
        let n = ports[p - 1] as int;
        lemma_ports_walk(page, base, ports, p - 1, ports_at, st);
        lemma_ports_grow(base, ports, p - 1, p, ports_at, st);
        lemma_ports_grow(base, ports, p, all, ports_at, st);
        lemma_ports_keys_within(base, ports, all, ports_at, st);
        lemma_ports_keys_within(base, ports, p - 1, ports_at, st);
        lemma_ports_persist(base, ports, p, all, ports_at, st, q);
        lemma_ports_persist(base, ports, p, all, ports_at, st, q + 1);
        assert(page[q] == page_with(last.0)[q]);
        assert(page[q + 1] == page_with(last.0)[q + 1]);
        if n == 0 {
            assert(cur == prev);
            if prev.0.dom().contains(q) {
                assert(st.0.dom().contains(q) || ports_at <= q < ports_at + 2 * (p - 1));
            }
            if prev.0.dom().contains(q + 1) {
                assert(st.0.dom().contains(q + 1) || ports_at <= q + 1 < ports_at + 2 * (p - 1));
            }
            assert(!cur.0.dom().contains(q));
            assert(!cur.0.dom().contains(q + 1));
            assert(page[q] == 0);
            assert(page[q + 1] == 0);
            assert(swap_halves(0u64) == 0);
            assert(root_port_sum(page, base, q) == 0);
        } else {
            let ptr = base + 8 * prev.1;
            assert(n < 0x1_0000_0000);
            lemma_packed_count(n);
            assert(page[q] == (n * 0x1_0000_0000) as u64);
            assert(page[q + 1] == ptr);
            assert(word_index(base, page[q + 1]) == prev.1);
            assert forall|i: int| prev.1 <= i < prev.1 + n implies page[i] == 0 by {
                if last.0.dom().contains(i) {
                    assert(st.0.dom().contains(i) || ports_at <= i < ports_at + 2 * all);
                }
                assert(!last.0.dom().contains(i));
            }
            lemma_words_from_zero(page, prev.1, n);
            assert(root_port_sum(page, base, q) == n + ptr);
        }
    }
}

/// The sum over the first `j` root complexes of a complex list, read from a page that holds the
/// words that the placement of all the complexes wrote, is the sum that the placement
/// accumulated.
proof fn lemma_complexes_walk(
    page: Seq<u64>,
    base: u64,
    complexes: Seq<Seq<usize>>,
    j: int,
    complexes_at: int,
    st: NestedPlacement,
)
    requires
        0 <= j <= complexes.len(),
        complexes_at >= 0,
        st.1 == complexes_at + 3 * complexes.len(),
        forall|key: int| st.0.dom().contains(key) ==> key < complexes_at,
        complexes_layout(base, complexes, complexes.len() as int, complexes_at, st).1 <= PAGE_WORDS,
        base + 0x1000 <= u64::MAX,
        forall|i: int|
            complexes_at <= i < complexes_layout(base, complexes, complexes.len() as int, complexes_at, st).1
                ==> page[i] == page_with(
                complexes_layout(base, complexes, complexes.len() as int, complexes_at, st).0,
            )[i],
    ensures
        root_complexes_sum(page, base, complexes_at, j) == complexes_layout(
            base,
            complexes,
            j,
            complexes_at,
            st,
        ).2 - st.2,
    decreases j,
{
    if j > 0 {
        let k = complexes.len() as int;
        let last = complexes_layout(base, complexes, k, complexes_at, st);
        let prev = complexes_layout(base, complexes, j - 1, complexes_at, st);
        let cur = complexes_layout(base, complexes, j, complexes_at, st);
        let c = complexes_at + 3 * (j - 1);
        let n = complexes[j - 1].len() as int;
        lemma_complexes_walk(page, base, complexes, j - 1, complexes_at, st);
        lemma_complexes_grow(base, complexes, j - 1, j, complexes_at, st);
        lemma_complexes_grow(base, complexes, j, k, complexes_at, st);
        lemma_complexes_grow(base, complexes, 0, j - 1, complexes_at, st);
        lemma_complexes_persist(base, complexes, 0, k, complexes_at, st, c);
        lemma_complexes_persist(base, complexes, j, k, complexes_at, st, c + 1);
        lemma_complexes_persist(base, complexes, j, k, complexes_at, st, c + 2);
        lemma_complexes_persist(base, complexes, 0, j - 1, complexes_at, st, c + 1);
        lemma_complexes_persist(base, complexes, 0, j - 1, complexes_at, st, c + 2);
        assert(page[c] == 0);
        assert(page[c + 1] == page_with(cur.0)[c + 1]);
        assert(page[c + 2] == page_with(cur.0)[c + 2]);
        if n == 0 {
            assert(page[c + 1] == 0);
            assert(page[c + 2] == 0);
            assert(swap_halves(0u64) == 0);
            assert(root_complex_sum(page, base, c) == 0);
        } else {
            let ptr = base + 8 * prev.1;
            let with_info = (
                prev.0.insert(c + 1, (n * 0x1_0000_0000) as u64).insert(c + 2, ptr as u64),
                prev.1 + 2 * n,
                prev.2 + n + ptr,
            );
            assert(cur == ports_layout(base, complexes[j - 1], n, prev.1, with_info));
            lemma_ports_grow(base, complexes[j - 1], n, n, prev.1, with_info);
            lemma_ports_values(base, complexes[j - 1], n, prev.1, with_info, c + 1);
            lemma_ports_values(base, complexes[j - 1], n, prev.1, with_info, c + 2);
            assert(n < 0x1_0000_0000);
            lemma_packed_count(n);
            assert(page[c + 1] == (n * 0x1_0000_0000) as u64);
            assert(page[c + 2] == ptr);
            assert(word_index(base, page[c + 2]) == prev.1);
            lemma_complexes_keys_below(base, complexes, j - 1, complexes_at, st);
            assert forall|i: int|
                prev.1 <= i < cur.1 implies page[i] == page_with(cur.0)[i] by {
                lemma_complexes_persist(base, complexes, j, k, complexes_at, st, i);
            }
            lemma_ports_walk(page, base, complexes[j - 1], n, prev.1, with_info);
            assert(root_complex_sum(page, base, c) == cur.2 - prev.2);
        }
    }
}

/// The root complex list placed after a header whose words lie before it: it holds the number
/// of complexes, and its checksum holds over everything that it reaches through its pointers.
proof fn lemma_root_complexes_over_flat(base: u64, flat: Placement, complexes: Seq<Seq<usize>>)
    requires
        flat.1 >= MANIFEST_WORDS,
        forall|key: int| flat.0.dom().contains(key) ==> 0 <= key < 17,
        with_root_complexes(base, flat, complexes).1 <= PAGE_WORDS,
        base + 0x1000 <= u64::MAX,
    ensures
        ({
            let page = page_with(with_root_complexes(base, flat, complexes).0);
            &&& page[ROOT_COMPLEX_HEADER as int] == complexes.len()
            &&& page[ROOT_COMPLEX_HEADER + 3] == if complexes.len() == 0 {
                0
            } else {
                negated(root_complex_list_sum(page, base))
            }
        }),
{
    let layout = with_root_complexes(base, flat, complexes);
    let page = page_with(layout.0);
    let h = ROOT_COMPLEX_HEADER as int;
    let k = complexes.len() as int;
    if k == 0 {
        assert(layout == flat);
        assert(!layout.0.dom().contains(h));
        assert(!layout.0.dom().contains(h + 3));
    } else {
        let ptr = base + 8 * flat.1;
        let st = (
            flat.0.insert(h, k as u64).insert(h + 2, ptr as u64),
            flat.1 + 3 * k,
            k + ptr,
        );
        let done = complexes_layout(base, complexes, k, flat.1, st);
        assert(layout.0 == done.0.insert(h + 3, negated(done.2)));
        assert(layout.1 == done.1);
        lemma_complexes_grow(base, complexes, k, k, flat.1, st);
        lemma_complexes_keys(base, complexes, k, flat.1, st);
        lemma_complexes_values(base, complexes, k, flat.1, st, h);
        lemma_complexes_values(base, complexes, k, flat.1, st, h + 2);
        if done.0.dom().contains(h + 1) {
            assert(st.0.dom().contains(h + 1));
        }
        assert(page[h] == k);
        assert(page[h + 1] == 0);
        assert(page[h + 2] == ptr);
        assert(swap_halves(0u64) == 0);
        assert(word_index(base, page[h + 2]) == flat.1);
        assert forall|i: int| flat.1 <= i < done.1 implies page[i] == page_with(done.0)[i] by {}
        lemma_complexes_walk(page, base, complexes, k, flat.1, st);
        assert(root_complex_list_sum(page, base) == done.2);
    }
}

/// In a new manifest, the root complex list holds the number of complexes, and its checksum
/// holds over everything that the list reaches through its pointers: the sum of its header
/// words, of its complexes, of their root ports and of their mappings, with the checksum, is
/// zero modulo 2^64. An empty list keeps a zero checksum.
pub proof fn lemma_new_root_complexes_checksummed(
    base: u64,
    dram: usize,
    console: usize,
    ncoh: usize,
    coh: usize,
    smmu: usize,
    complexes: Seq<Seq<usize>>,
)
    requires
        base + 0x1000 <= u64::MAX,
        manifest_layout(base, dram as int, console as int, ncoh as int, coh as int, smmu as int, complexes).1
            <= PAGE_WORDS,
    ensures
        ({
            let page = page_with(
                manifest_layout(base, dram as int, console as int, ncoh as int, coh as int, smmu as int, complexes).0,
            );
            &&& page[ROOT_COMPLEX_HEADER as int] == complexes.len()
            &&& page[ROOT_COMPLEX_HEADER + 3] == if complexes.len() == 0 {
                0
            } else {
                negated(root_complex_list_sum(page, base))
            }
        }),
{
    lemma_flat_keys(base, dram, console, ncoh, coh, smmu);
    lemma_root_complexes_over_flat(
        base,
        flat_layout(base, dram as int, console as int, ncoh as int, coh as int, smmu as int),
        complexes,
    );
}

/// Zeroes the page.
fn clear_page(page: &mut [u64])
    requires
        old(page)@.len() == PAGE_WORDS,
    ensures
        final(page)@ == page_with(Map::empty()),
{
    let mut i: usize = 0;
    while i < PAGE_WORDS
        invariant
            i <= PAGE_WORDS,
            page@.len() == PAGE_WORDS,
            forall|k: int| 0 <= k < i ==> page@[k] == 0,
        decreases PAGE_WORDS - i,
    {
        page[i] = 0;
        i += 1;
    }
    assert(page@ =~= page_with(Map::empty()));
}

/// Writes the header of a checksummed list placed at the next free word, as `place_list` says.
fn write_list_header(
    page: &mut [u64],
    base: u64,
    Ghost(st): Ghost<Placement>,
    cursor: usize,
    header: usize,
    n: usize,
    item_words: usize,
) -> (next: usize)
    requires
        old(page)@ == page_with(st.0),
        cursor == st.1,
        header + 2 < PAGE_WORDS,
        item_words >= 1,
        place_list(base, st, header as int, n as int, item_words as int).1 <= PAGE_WORDS,
        base + 0x1000 <= u64::MAX,
    ensures
        final(page)@ == page_with(place_list(base, st, header as int, n as int, item_words as int).0),
        next == place_list(base, st, header as int, n as int, item_words as int).1,
{
    if n == 0 {
        return cursor;
    }
    assert(n <= n * item_words) by (nonlinear_arith)
        requires
            item_words >= 1,
    ;
    let ptr = base + 8 * (cursor as u64);
    page[header] = n as u64;
    page[header + 1] = ptr;
    page[header + 2] = list_checksum(n as u64 + ptr);
    assert(page@ =~= page_with(place_list(base, st, header as int, n as int, item_words as int).0));
    cursor + n * item_words
}

/// Places the mapping lists of a complex's root ports, as `ports_layout` says.
fn place_ports(
    page: &mut [u64],
    base: u64,
    ports: &Vec<usize>,
    ports_at: usize,
    Ghost(st): Ghost<NestedPlacement>,
    cursor: usize,
    sum: u64,
) -> (r: (usize, u64))
    requires
        old(page)@ == page_with(st.0),
        cursor == st.1,
        st.2 >= 0,
        sum == st.2 % word_modulus(),
        ports_at + 2 * ports@.len() <= cursor,
        ports_layout(base, ports@, ports@.len() as int, ports_at as int, st).1 <= PAGE_WORDS,
        base + 0x1000 <= u64::MAX,
    ensures
        final(page)@ == page_with(ports_layout(base, ports@, ports@.len() as int, ports_at as int, st).0),
        r.0 == ports_layout(base, ports@, ports@.len() as int, ports_at as int, st).1,
        r.1 == ports_layout(base, ports@, ports@.len() as int, ports_at as int, st).2 % word_modulus(),
{
    let ghost all = ports@.len() as int;
    let mut p: usize = 0;
    let mut cursor = cursor;
    let mut sum = sum;
    while p < ports.len()
        invariant
            p <= ports@.len(),
            all == ports@.len(),
            st.2 >= 0,
            ports_at + 2 * all <= st.1,
            ports_layout(base, ports@, all, ports_at as int, st).1 <= PAGE_WORDS,
            base + 0x1000 <= u64::MAX,
            page@ == page_with(ports_layout(base, ports@, p as int, ports_at as int, st).0),
            cursor == ports_layout(base, ports@, p as int, ports_at as int, st).1,
            sum == ports_layout(base, ports@, p as int, ports_at as int, st).2 % word_modulus(),
        decreases ports@.len() - p,
    {
        let ghost prev = ports_layout(base, ports@, p as int, ports_at as int, st);
        proof {
            lemma_ports_grow(base, ports@, p as int, p + 1, ports_at as int, st);
            lemma_ports_grow(base, ports@, p + 1, all, ports_at as int, st);
        }
        let n = ports[p];
        if n != 0 {
            let info = ports_at + 2 * p;
            let ptr = base + 8 * (cursor as u64);
            page[info] = (n as u64) * 0x1_0000_0000;
            page[info + 1] = ptr;
            proof {
                lemma_accumulate(prev.2, sum, n as u64);
                lemma_accumulate(prev.2 + n, ((sum + n) % word_modulus()) as u64, ptr);
            }
            sum = add_words(add_words(sum, n as u64), ptr);
            cursor = cursor + n;
            assert(page@ =~= page_with(ports_layout(base, ports@, p + 1, ports_at as int, st).0));
        }
        p += 1;
    }
    (cursor, sum)
}

/// Places the port lists of the root complexes and the mapping lists of their ports, as
/// `complexes_layout` says.
fn place_complexes(
    page: &mut [u64],
    base: u64,
    complexes: &[Vec<usize>],
    complexes_at: usize,
    Ghost(st): Ghost<NestedPlacement>,
    cursor: usize,
    sum: u64,
) -> (r: (usize, u64))
    requires
        old(page)@ == page_with(st.0),
        cursor == st.1,
        st.2 >= 0,
        sum == st.2 % word_modulus(),
        complexes_at + 3 * complexes@.len() <= cursor,
        complexes_layout(
            base,
            complex_sizes(complexes@),
            complexes@.len() as int,
            complexes_at as int,
            st,
        ).1 <= PAGE_WORDS,
        base + 0x1000 <= u64::MAX,
    ensures
        final(page)@ == page_with(
            complexes_layout(
                base,
                complex_sizes(complexes@),
                complexes@.len() as int,
                complexes_at as int,
                st,
            ).0,
        ),
        r.0 == complexes_layout(
            base,
            complex_sizes(complexes@),
            complexes@.len() as int,
            complexes_at as int,
            st,
        ).1,
        r.1 == complexes_layout(
            base,
            complex_sizes(complexes@),
            complexes@.len() as int,
            complexes_at as int,
            st,
        ).2 % word_modulus(),
{
    let ghost sizes = complex_sizes(complexes@);
    let ghost all = complexes@.len() as int;
    let mut j: usize = 0;
    let mut cursor = cursor;
    let mut sum = sum;
    while j < complexes.len()
        invariant
            j <= complexes@.len(),
            all == complexes@.len(),
            sizes == complex_sizes(complexes@),
            st.2 >= 0,
            complexes_at + 3 * all <= st.1,
            complexes_layout(base, sizes, all, complexes_at as int, st).1 <= PAGE_WORDS,
            base + 0x1000 <= u64::MAX,
            page@ == page_with(complexes_layout(base, sizes, j as int, complexes_at as int, st).0),
            cursor == complexes_layout(base, sizes, j as int, complexes_at as int, st).1,
            sum == complexes_layout(base, sizes, j as int, complexes_at as int, st).2
                % word_modulus(),
        decreases complexes@.len() - j,
    {
        let ghost prev = complexes_layout(base, sizes, j as int, complexes_at as int, st);
        proof {
            lemma_complexes_grow(base, sizes, j as int, j + 1, complexes_at as int, st);
            lemma_complexes_grow(base, sizes, j + 1, all, complexes_at as int, st);
        }
        let ports = &complexes[j];
        assert(ports@ == sizes[j as int]);
        let n = ports.len();
        if n != 0 {
            let info = complexes_at + 3 * j;
            let ptr = base + 8 * (cursor as u64);
            let ghost with_info = (
                prev.0.insert(info + 1, (n * 0x1_0000_0000) as u64).insert(info + 2, ptr),
                prev.1 + 2 * n,
                prev.2 + n + ptr,
            );
            proof {
                lemma_ports_grow(base, ports@, 0, n as int, prev.1, with_info);
            }
            page[info + 1] = (n as u64) * 0x1_0000_0000;
            page[info + 2] = ptr;
            assert(page@ =~= page_with(with_info.0));
            proof {
                lemma_accumulate(prev.2, sum, n as u64);
                lemma_accumulate(prev.2 + n, ((sum + n) % word_modulus()) as u64, ptr);
            }
            let with_sum = add_words(add_words(sum, n as u64), ptr);
            let done = place_ports(page, base, ports, cursor, Ghost(with_info), cursor + 2 * n, with_sum);
            cursor = done.0;
            sum = done.1;
        }
        j += 1;
    }
    (cursor, sum)
}

/// The checksummed lists of the manifest whose items are plain words, in the order of their
/// headers in the manifest.
#[derive(Clone, Copy, Debug, PartialEq, Eq, Structural)]
pub enum ManifestListKind {
    /// Non-secure DRAM banks (`RmmMemoryBank`).
    Dram,
    /// Consoles available to the RMM (`RmmConsoleInfo`).
    Console,
    /// Device non-coherent ranges (`RmmMemoryBank`).
    NcohRegion,
    /// Device coherent ranges (`RmmMemoryBank`).
    CohRegion,
    /// SMMUs available to the RMM (`RmmSmmuInfo`).
    Smmu,
}

impl ManifestListKind {
    /// The word of the manifest that holds the list's entry count; the address of its first item
    /// and its checksum follow.
    pub open spec fn spec_header(self) -> int {
        match self {
            ManifestListKind::Dram => 2,
            ManifestListKind::Console => 5,
            ManifestListKind::NcohRegion => 8,
            ManifestListKind::CohRegion => 11,
            ManifestListKind::Smmu => 14,
        }
    }

    /// The number of words of each item of the list.
    pub open spec fn spec_item_words(self) -> int {
        match self {
            ManifestListKind::Console => 6,
            _ => 2,
        }
    }

    /// The word of the manifest that holds the list's entry count.
    pub fn header(self) -> (r: usize)
        ensures
            r == self.spec_header(),
    {
        match self {
            ManifestListKind::Dram => 2,
            ManifestListKind::Console => 5,
            ManifestListKind::NcohRegion => 8,
            ManifestListKind::CohRegion => 11,
            ManifestListKind::Smmu => 14,
        }
    }

    /// The number of words of each item of the list.
    pub fn item_words(self) -> (r: usize)
        ensures
            r == self.spec_item_words(),
    {
        match self {
            ManifestListKind::Console => 6,
            _ => 2,
        }
    }
}

/// The sum of a sequence of words.
pub open spec fn words_sum(s: Seq<u64>) -> int
    decreases s.len(),
{
    if s.len() == 0 {
        0
    } else {
        words_sum(s.drop_last()) + s.last()
    }
}

/// The index in the page of the first item of a list.
pub open spec fn list_first(page: Seq<u64>, base: u64, list: ManifestListKind) -> int {
    (page[list.spec_header() + 1] - base) / 8
}

/// The number of words of all items of a list.
pub open spec fn list_words(page: Seq<u64>, list: ManifestListKind) -> int {
    page[list.spec_header()] * list.spec_item_words()
}

/// Whether the items of a list, as its header gives them, lie in the page after the manifest.
pub open spec fn list_in_page(page: Seq<u64>, base: u64, list: ManifestListKind) -> bool {
    &&& page.len() == PAGE_WORDS
    &&& page[list.spec_header() + 1] >= base + 8 * MANIFEST_WORDS
    &&& (page[list.spec_header() + 1] - base) % 8 == 0
    &&& list_first(page, base, list) + list_words(page, list) <= PAGE_WORDS
}

/// The sum over which a list's checksum is taken: its entry count, the address of its first item
/// and all words of its items.
pub open spec fn list_sum(page: Seq<u64>, base: u64, list: ManifestListKind) -> int {
    let first = list_first(page, base, list);
    page[list.spec_header()] + page[list.spec_header() + 1] + words_sum(
        page.subrange(first, first + list_words(page, list)),
    )
}

/// Whether a list's checksum brings the sum of its words to zero modulo 2^64.
pub open spec fn list_checksum_holds(page: Seq<u64>, base: u64, list: ManifestListKind) -> bool {
    (list_sum(page, base, list) + page[list.spec_header() + 2]) % word_modulus() == 0
}

/// The page with the words of item `index` of a list replaced, and the list's checksum computed
/// again over its new contents.
pub open spec fn with_list_item(
    page: Seq<u64>,
    base: u64,
    list: ManifestListKind,
    index: int,
    item: Seq<u64>,
) -> Seq<u64> {
    let start = list_first(page, base, list) + index * list.spec_item_words();
    let written = Seq::new(
        page.len(),
        |i: int|
            if start <= i < start + item.len() {
                item[i - start]
            } else {
                page[i]
            },
    );
    written.update(list.spec_header() + 2, negated(list_sum(written, base, list)))
}

/// A checksum taken as `with_list_item` takes it brings the sum of the list's words to zero.
proof fn lemma_negated_cancels(s: int)
    requires
        s >= 0,
    ensures
        (s + negated(s)) % word_modulus() == 0,
{
    let m = word_modulus();
    let r = s % m;
    vstd::arithmetic::div_mod::lemma_fundamental_div_mod(s, m);
    vstd::arithmetic::div_mod::lemma_mod_pos_bound(s, m);
    lemma_negated(s, r as u64);
    if r == 0 {
        vstd::arithmetic::div_mod::lemma_mod_multiples_basic(s / m, m);
        assert(s == (s / m) * m) by (nonlinear_arith)
            requires
                s == m * (s / m) + r,
                r == 0,
        ;
    } else {
        assert(s + negated(s) == (s / m + 1) * m) by (nonlinear_arith)
            requires
                s == m * (s / m) + r,
                negated(s) == m - r,
        ;
        vstd::arithmetic::div_mod::lemma_mod_multiples_basic(s / m + 1, m);
    }
}

/// A sum of words is never negative.
proof fn lemma_words_sum_nonnegative(s: Seq<u64>)
    ensures
        words_sum(s) >= 0,
    decreases s.len(),
{
    if s.len() > 0 {
        lemma_words_sum_nonnegative(s.drop_last());
    }
}

/// Sums the words of a list modulo 2^64, as `list_sum` takes them.
fn sum_list(page: &[u64], base: u64, list: ManifestListKind) -> (r: u64)
    requires
        list_in_page(page@, base, list),
        list.spec_item_words() >= 1,
    ensures
        r == list_sum(page@, base, list) % word_modulus(),
{
    let h = list.header();
    let n = page[h];
    let ptr = page[h + 1];
    assert(n <= n * list.spec_item_words()) by (nonlinear_arith)
        requires
            list.spec_item_words() >= 1,
    ;
    let first = ((ptr - base) / 8) as usize;
    let total = (n as usize) * list.item_words();
    let ghost words = page@.subrange(first as int, first + total);
    let mut acc = add_words(n, ptr);
    assert(words_sum(words.subrange(0, 0)) == 0);
    let mut t: usize = 0;
    while t < total
        invariant
            t <= total,
            first + total <= PAGE_WORDS,
            page@.len() == PAGE_WORDS,
            words == page@.subrange(first as int, first + total),
            acc == (n + ptr + words_sum(words.subrange(0, t as int))) % word_modulus(),
        decreases total - t,
    {
        let ghost before = n + ptr + words_sum(words.subrange(0, t as int));
        proof {
            lemma_words_sum_nonnegative(words.subrange(0, t as int));
            lemma_accumulate(before, acc, page@[first + t]);
            assert(words.subrange(0, t + 1).drop_last() =~= words.subrange(0, t as int));
        }
        acc = add_words(acc, page[first + t]);
        t += 1;
    }
    assert(words.subrange(0, total as int) =~= words);
    acc
}

/// The checksum of a sum of words, from the sum modulo 2^64.
fn checksum_of(sum: u64, Ghost(total): Ghost<int>) -> (r: u64)
    requires
        sum == total % word_modulus(),
    ensures
        r == negated(total),
{
    proof {
        lemma_negated(total, sum);
    }
    if sum == 0 {
        0
    } else {
        u64::MAX - sum + 1
    }
}

/// The manifest as it lies at the start of the page: its version, the platform data pointer, and
/// the headers of its lists.
pub struct RmmBootManifest {
    /// Boot Manifest version.
    pub version: RmmBootManifestVersion,
    /// Reserved, zero.
    pub padding: u32,
    /// Pointer to the Platform Data section.
    pub plat_data: u64,
    /// Non-secure DRAM layout.
    pub plat_dram: RmmMemoryBankList,
    /// Consoles available to the RMM.
    pub plat_console: RmmConsoleList,
    /// Device non-coherent ranges.
    pub plat_ncoh_region: RmmMemoryBankList,
    /// Device coherent ranges.
    pub plat_coh_region: RmmMemoryBankList,
    /// SMMUs available to the RMM.
    pub plat_smmu: RmmSmmuList,
    /// PCIe root complexes available to the RMM.
    pub plat_root_complex: RmmRootComplexList,
}

impl RmmBootManifest {
    /// The manifest held by the first words of the page.
    pub fn from_page(page: &[u64]) -> (r: Self)
        requires
            page@.len() == PAGE_WORDS,
        ensures
            r.version.0 == (page@[0] & 0xffff_ffff) as u32,
            r.padding == (page@[0] >> 32u64) as u32,
            r.plat_data == page@[1],
            r.plat_dram.num_entries == page@[2],
            r.plat_dram.entries_ptr == page@[3],
            r.plat_dram.checksum == page@[4],
            r.plat_console.num_entries == page@[5],
            r.plat_console.entries_ptr == page@[6],
            r.plat_console.checksum == page@[7],
            r.plat_ncoh_region.num_entries == page@[8],
            r.plat_ncoh_region.entries_ptr == page@[9],
            r.plat_ncoh_region.checksum == page@[10],
            r.plat_coh_region.num_entries == page@[11],
            r.plat_coh_region.entries_ptr == page@[12],
            r.plat_coh_region.checksum == page@[13],
            r.plat_smmu.num_entries == page@[14],
            r.plat_smmu.entries_ptr == page@[15],
            r.plat_smmu.checksum == page@[16],
            r.plat_root_complex.num_entries == page@[17],
            r.plat_root_complex.rc_info_version.0 == (page@[18] & 0xffff_ffff) as u32,
            r.plat_root_complex.padding == (page@[18] >> 32u64) as u32,
            r.plat_root_complex.entries_ptr == page@[19],
            r.plat_root_complex.checksum == page@[20],
    {
        RmmBootManifest {
            version: RmmBootManifestVersion((page[0] & 0xffff_ffff) as u32),
            padding: (page[0] >> 32u64) as u32,
            plat_data: page[1],
            plat_dram: RmmMemoryBankList { num_entries: page[2], entries_ptr: page[3], checksum: page[4] },
            plat_console: RmmConsoleList { num_entries: page[5], entries_ptr: page[6], checksum: page[7] },
            plat_ncoh_region: RmmMemoryBankList {
                num_entries: page[8],
                entries_ptr: page[9],
                checksum: page[10],
            },
            plat_coh_region: RmmMemoryBankList {
                num_entries: page[11],
                entries_ptr: page[12],
                checksum: page[13],
            },
            plat_smmu: RmmSmmuList { num_entries: page[14], entries_ptr: page[15], checksum: page[16] },
            plat_root_complex: RmmRootComplexList {
                num_entries: page[17],
                rc_info_version: RmmBootManifestVersion((page[18] & 0xffff_ffff) as u32),
                padding: (page[18] >> 32u64) as u32,
                entries_ptr: page[19],
                checksum: page[20],
            },
        }
    }

    /// Creates a new boot manifest in the zeroed page at physical address `base`: each list of
    /// nonzero size is placed after the manifest and the lists before it, with its count and
    /// address in its header, its items zeroed and, but for the root complex list, its checksum
    /// over the zeroed items. The root complexes' port lists and their ports' mapping lists are
    /// placed in turn after the root complex list, each complex's port list followed by its ports'
    /// mapping lists, and the root complex list's checksum is taken over all of them.
    pub fn new(
        page: &mut [u64],
        base: u64,
        dram_size: usize,
        console_size: usize,
        ncoh_region_size: usize,
        coh_region_size: usize,
        smmu_size: usize,
        root_complex_size: &[Vec<usize>],
    )
        requires
            old(page)@.len() == PAGE_WORDS,
            base % 0x1000 == 0,
            base + 0x1000 <= u64::MAX,
            manifest_layout(
                base,
                dram_size as int,
                console_size as int,
                ncoh_region_size as int,
                coh_region_size as int,
                smmu_size as int,
                complex_sizes(root_complex_size@),
            ).1 <= PAGE_WORDS,
        ensures
            final(page)@ == page_with(
                manifest_layout(
                    base,
                    dram_size as int,
                    console_size as int,
                    ncoh_region_size as int,
                    coh_region_size as int,
                    smmu_size as int,
                    complex_sizes(root_complex_size@),
                ).0,
            ),
    {
        let ghost sizes = complex_sizes(root_complex_size@);
        let ghost flat = flat_layout(
            base,
            dram_size as int,
            console_size as int,
            ncoh_region_size as int,
            coh_region_size as int,
            smmu_size as int,
        );
        let ghost k = root_complex_size@.len() as int;
        proof {
            if k != 0 {
                let ptr = base + 8 * flat.1;
                let st = (
                    flat.0.insert(ROOT_COMPLEX_HEADER as int, k as u64).insert(
                        ROOT_COMPLEX_HEADER + 2,
                        ptr as u64,
                    ),
                    flat.1 + 3 * k,
                    k + ptr,
                );
                lemma_complexes_grow(base, sizes, 0, k, flat.1, st);
            }
        }
        clear_page(page);
        page[0] = RMM_BOOT_MANIFEST_VERSION as u64;
        let ghost st0: Placement = (map![0int => RMM_BOOT_MANIFEST_VERSION as u64], MANIFEST_WORDS as int);
        assert(page@ =~= page_with(st0.0));
        let ghost st1 = place_list(base, st0, 2, dram_size as int, 2);
        let ghost st2 = place_list(base, st1, 5, console_size as int, 6);
        let ghost st3 = place_list(base, st2, 8, ncoh_region_size as int, 2);
        let ghost st4 = place_list(base, st3, 11, coh_region_size as int, 2);
        let cursor = write_list_header(page, base, Ghost(st0), MANIFEST_WORDS, 2, dram_size, 2);
        let cursor = write_list_header(page, base, Ghost(st1), cursor, 5, console_size, 6);
        let cursor = write_list_header(page, base, Ghost(st2), cursor, 8, ncoh_region_size, 2);
        let cursor = write_list_header(page, base, Ghost(st3), cursor, 11, coh_region_size, 2);
        let cursor = write_list_header(page, base, Ghost(st4), cursor, 14, smmu_size, 2);
        let k = root_complex_size.len();
        if k != 0 {
            let ptr = base + 8 * (cursor as u64);
            page[ROOT_COMPLEX_HEADER] = k as u64;
            page[ROOT_COMPLEX_HEADER + 2] = ptr;
            let ghost st: NestedPlacement = (
                flat.0.insert(ROOT_COMPLEX_HEADER as int, k as u64).insert(
                    ROOT_COMPLEX_HEADER + 2,
                    ptr,
                ),
                cursor + 3 * k,
                k + ptr,
            );
            assert(page@ =~= page_with(st.0));
            proof {
                lemma_small_mod((k + ptr) as nat, word_modulus() as nat);
            }
            let done = place_complexes(
                page,
                base,
                root_complex_size,
                cursor,
                Ghost(st),
                cursor + 3 * k,
                k as u64 + ptr,
            );
            let ghost total = complexes_layout(base, sizes, k as int, cursor as int, st).2;
            page[ROOT_COMPLEX_HEADER + 3] = checksum_of(done.1, Ghost(total));
            assert(page@ =~= page_with(
                manifest_layout(
                    base,
                    dram_size as int,
                    console_size as int,
                    ncoh_region_size as int,
                    coh_region_size as int,
                    smmu_size as int,
                    sizes,
                ).0,
            ));
        }
    }

    /// Writes item `index` of a checksummed list of the manifest in the page at physical address
    /// `base`, and computes the list's checksum again over its new contents.
    pub fn write_list_item(
        page: &mut [u64],
        base: u64,
        list: ManifestListKind,
        index: usize,
        item: &[u64],
    )
        requires
            list_in_page(old(page)@, base, list),
            index < old(page)@[list.spec_header()],
            item@.len() == list.spec_item_words(),
        ensures
            final(page)@ == with_list_item(old(page)@, base, list, index as int, item@),
            list_checksum_holds(final(page)@, base, list),
    {
        let ghost before = page@;
        let h = list.header();
        let iw = list.item_words();
        let first = ((page[h + 1] - base) / 8) as usize;
        assert(index * iw + iw <= page@[h as int] * iw) by (nonlinear_arith)
            requires
                index < page@[h as int],
                iw >= 1,
        ;
        let start = first + index * iw;
        let mut k: usize = 0;
        while k < iw
            invariant
                k <= iw,
                iw == item@.len(),
                start + iw <= PAGE_WORDS,
                before.len() == PAGE_WORDS,
                page@.len() == PAGE_WORDS,
                forall|i: int|
                    0 <= i < PAGE_WORDS ==> page@[i] == (if start <= i < start + k {
                        item@[i - start]
                    } else {
                        before[i]
                    }),
            decreases iw - k,
        {
            page[start + k] = item[k];
            k += 1;
        }
        let ghost written = page@;
        assert(written[h as int] == before[h as int]);
        assert(written[h + 1] == before[h + 1]);
        assert(written =~= Seq::new(
            before.len(),
            |i: int|
                if start <= i < start + item@.len() {
                    item@[i - start]
                } else {
                    before[i]
                },
        ));
        let sum = sum_list(page, base, list);
        let ghost total = list_sum(written, base, list);
        page[h + 2] = checksum_of(sum, Ghost(total));
        proof {
            let f = list_first(written, base, list);
            assert(page@.subrange(f, f + list_words(written, list)) =~= written.subrange(
                f,
                f + list_words(written, list),
            ));
            lemma_words_sum_nonnegative(written.subrange(f, f + list_words(written, list)));
            lemma_negated_cancels(total);
        }
        assert(page@ =~= with_list_item(before, base, list, index as int, item@));
    }
}

/// A checksummed list of `RmmMemoryBank` items, stored alongside the manifest.
pub struct RmmMemoryBankList {
    /// Number of items.
    pub num_entries: u64,
    /// Physical address of the first item, zero for an empty list.
    pub entries_ptr: u64,
    /// Checksum over the count, the address and the items.
    pub checksum: u64,
}

/// A checksummed list of `RmmConsoleInfo` items, stored alongside the manifest.
pub struct RmmConsoleList {
    /// Number of items.
    pub num_entries: u64,
    /// Physical address of the first item, zero for an empty list.
    pub entries_ptr: u64,
    /// Checksum over the count, the address and the items.
    pub checksum: u64,
}

/// A checksummed list of `RmmSmmuInfo` items, stored alongside the manifest.
pub struct RmmSmmuList {
    /// Number of items.
    pub num_entries: u64,
    /// Physical address of the first item, zero for an empty list.
    pub entries_ptr: u64,
    /// Checksum over the count, the address and the items.
    pub checksum: u64,
}

/// The checksummed list of the PCIe root complexes available to the RMM.
pub struct RmmRootComplexList {
    /// Number of root complexes.
    pub num_entries: u64,
    /// Root Complex Info structure version.
    pub rc_info_version: RmmBootManifestVersion,
    /// Reserved, zero.
    pub padding: u32,
    /// Physical address of the first root complex, zero for an empty list.
    pub entries_ptr: u64,
    /// Checksum over the list, its root complexes, their ports and the ports' mappings.
    pub checksum: u64,
}

/// A PCIe root complex available to the RMM, with its list of root ports.
pub struct RmmRootComplexInfo {
    /// PCIe ECAM base address.
    pub ecam_base: u64,
    /// PCIe segment identifier.
    pub segment: u8,
    /// Reserved, zero.
    pub padding: [u8; 3],
    /// Number of root ports.
    pub num_entries: u32,
    /// Physical address of the first root port, zero for an empty list.
    pub entries_ptr: u64,
}

/// A root port of a PCIe root complex, with its list of BDF mappings.
pub struct RmmRootPortInfo {
    /// Root port identifier.
    pub root_port_id: u16,
    /// Reserved, zero.
    pub padding: u16,
    /// Number of BDF mappings.
    pub num_entries: u32,
    /// Physical address of the first mapping, zero for an empty list.
    pub entries_ptr: u64,
}

/// A Bus-Device-Function mapping of a PCIe root port.
#[derive(Clone, Copy, Debug, PartialEq, Eq, Structural)]
pub struct BdfMappingInfo {
    /// Base of the BDF mapping (inclusive).
    pub mapping_base: u16,
    /// Top of the BDF mapping (exclusive).
    pub mapping_top: u16,
    /// Mapping offset, as per the Arm Base System Architecture.
    pub mapping_off: u16,
    /// Index of the SMMU in the manifest's SMMU list.
    pub smmu_idx: u16,
}

impl RmmRootComplexInfo {
    /// The root complex held by its three words in the page.
    pub fn from_words(words: &[u64; 3]) -> (r: Self)
        ensures
            r.ecam_base == words[0],
            r.segment == (words[1] & 0xff) as u8,
            r.padding[0] == ((words[1] >> 8u64) & 0xff) as u8,
            r.padding[1] == ((words[1] >> 16u64) & 0xff) as u8,
            r.padding[2] == ((words[1] >> 24u64) & 0xff) as u8,
            r.num_entries == (words[1] >> 32u64) as u32,
            r.entries_ptr == words[2],
    {
        let w = words[1];
        RmmRootComplexInfo {
            ecam_base: words[0],
            segment: (w & 0xff) as u8,
            padding: [((w >> 8u64) & 0xff) as u8, ((w >> 16u64) & 0xff) as u8, ((w >> 24u64) & 0xff) as u8],
            num_entries: (w >> 32u64) as u32,
            entries_ptr: words[2],
        }
    }
}

impl RmmRootPortInfo {
    /// The root port held by its two words in the page.
    pub fn from_words(words: &[u64; 2]) -> (r: Self)
        ensures
            r.root_port_id == (words[0] & 0xffff) as u16,
            r.padding == ((words[0] >> 16u64) & 0xffff) as u16,
            r.num_entries == (words[0] >> 32u64) as u32,
            r.entries_ptr == words[1],
    {
        let w = words[0];
        RmmRootPortInfo {
            root_port_id: (w & 0xffff) as u16,
            padding: ((w >> 16u64) & 0xffff) as u16,
            num_entries: (w >> 32u64) as u32,
            entries_ptr: words[1],
        }
    }
}

impl BdfMappingInfo {
    /// The word of the mapping in a list: base, top, offset and SMMU index, lowest first.
    pub fn word(&self) -> (r: u64)
        ensures
            r == (self.mapping_base as u64) | ((self.mapping_top as u64) << 16u64) | ((
            self.mapping_off as u64) << 32u64) | ((self.smmu_idx as u64) << 48u64),
    {
        (self.mapping_base as u64) | ((self.mapping_top as u64) << 16u64) | ((
        self.mapping_off as u64) << 32u64) | ((self.smmu_idx as u64) << 48u64)
    }
}

/// A memory bank or device region.
#[derive(Clone, Copy, Debug, PartialEq, Eq, Structural)]
pub struct RmmMemoryBank {
    /// Base address.
    pub base: u64,
    /// Size of the memory bank or device region in bytes.
    pub size: u64,
}

/// A console available to the RMM.
#[derive(Clone, Copy, Debug)]
pub struct RmmConsoleInfo {
    /// Console base address.
    pub base: u64,
    /// Number of pages to map for the console MMIO.
    pub map_pages: u64,
    /// Name of the console, NUL padded.
    pub name: [u8; 8],
    /// UART clock in Hz.
    pub clk_in_hz: u64,
    /// Baud rate.
    pub baud_rate: u64,
    /// Additional flags (reserved, zero).
    pub flags: u64,
}

/// An SMMU available to the RMM.
#[derive(Clone, Copy, Debug, PartialEq, Eq, Structural)]
pub struct RmmSmmuInfo {
    /// SMMU base address.
    pub smmu_base: u64,
    /// SMMU Realm pages base address.
    pub smmu_r_base: u64,
}

/// The eight bytes of a word, lowest first.
pub open spec fn le_word(b: Seq<u8>) -> u64 {
    (b[0] as u64) | ((b[1] as u64) << 8u64) | ((b[2] as u64) << 16u64) | ((b[3] as u64) << 24u64)
        | ((b[4] as u64) << 32u64) | ((b[5] as u64) << 40u64) | ((b[6] as u64) << 48u64) | ((
    b[7] as u64) << 56u64)
}

impl RmmMemoryBank {
    /// The words of the item in a list.
    pub fn words(&self) -> (r: [u64; 2])
        ensures
            r@ == seq![self.base, self.size],
    {
        [self.base, self.size]
    }
}

impl RmmConsoleInfo {
    /// The words of the item in a list; the name's bytes fill the third word, lowest first.
    pub fn words(&self) -> (r: [u64; 6])
        ensures
            r@ == seq![
                self.base,
                self.map_pages,
                le_word(self.name@),
                self.clk_in_hz,
                self.baud_rate,
                self.flags,
            ],
    {
        let b = self.name;
        let name = (b[0] as u64) | ((b[1] as u64) << 8u64) | ((b[2] as u64) << 16u64) | ((
        b[3] as u64) << 24u64) | ((b[4] as u64) << 32u64) | ((b[5] as u64) << 40u64) | ((
        b[6] as u64) << 48u64) | ((b[7] as u64) << 56u64);
        let r = [self.base, self.map_pages, name, self.clk_in_hz, self.baud_rate, self.flags];
        assert(r@ =~= seq![
            self.base,
            self.map_pages,
            le_word(self.name@),
            self.clk_in_hz,
            self.baud_rate,
            self.flags,
        ]);
        r
    }
}

impl RmmSmmuInfo {
    /// The words of the item in a list.
    pub fn words(&self) -> (r: [u64; 2])
        ensures
            r@ == seq![self.smmu_base, self.smmu_r_base],
    {
        [self.smmu_base, self.smmu_r_base]
    }
}

} // verus!
