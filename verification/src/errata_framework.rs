//! The CPU errata framework: which CPU revisions an erratum affects, and when its workaround is
//! applied.

use vstd::prelude::*;

verus! {

/// A unique identifier for an erratum.
pub type ErratumID = u32;

/// The CVE number associated with an erratum, or 0 if none.
pub type CVE = u32;

/// Bits [3:0] of MIDR_EL1: the revision.
pub const MIDR_REVISION_MASK: u64 = 0xf;
/// Bits [23:20] of MIDR_EL1: the variant.
pub const MIDR_VARIANT_SHIFT: u64 = 20;
/// Width mask of the variant field of MIDR_EL1.
pub const MIDR_VARIANT_MASK: u64 = 0xf;

/// Represents a CPU revision and variant.
#[derive(Clone, Copy, PartialEq, Eq, Debug, Structural)]
pub struct RevisionVariant {
    /// The revision.
    pub revision: u8,
    /// The variant.
    pub variant: u8,
}

/// The order of CPU revisions: by revision, then by variant.
pub open spec fn rv_less(a: RevisionVariant, b: RevisionVariant) -> bool {
    a.revision < b.revision || (a.revision == b.revision && a.variant < b.variant)
}

impl RevisionVariant {
    /// Creates a new RevisionVariant.
    pub fn new(revision: u8, variant: u8) -> (r: Self)
        ensures
            r.revision == revision,
            r.variant == variant,
    {
        RevisionVariant { revision, variant }
    }

    /// A sentinel value for errata that are not yet fixed.
    pub fn not_fixed() -> (r: Self)
        ensures
            r.revision == u8::MAX,
            r.variant == u8::MAX,
    {
        Self::new(u8::MAX, u8::MAX)
    }

    /// Returns whether `self` is an earlier CPU revision than `other`: by revision, then by
    /// variant.
    pub fn less_than(self, other: Self) -> (r: bool)
        ensures
            r == rv_less(self, other),
    {
        self.revision < other.revision || (self.revision == other.revision && self.variant < other.variant)
    }

    /// Reads the revision and variant fields of a MIDR_EL1 value.
    pub fn from_midr(midr: u64) -> (r: Self)
        ensures
            r.revision == midr & MIDR_REVISION_MASK,
            r.variant == (midr >> MIDR_VARIANT_SHIFT) & MIDR_VARIANT_MASK,
    {
        let revision = midr & MIDR_REVISION_MASK;
        let variant = (midr >> MIDR_VARIANT_SHIFT) & MIDR_VARIANT_MASK;
        assert(midr & 0xf <= 0xf) by (bit_vector);
        assert((midr >> 20u64) & 0xf <= 0xf) by (bit_vector);
        RevisionVariant { revision: revision as u8, variant: variant as u8 }
    }
}

/// Whether an erratum applies to the CPU revision `current`: from `apply_from` on, and before
/// `fixed_in`.
pub open spec fn erratum_applies(current: RevisionVariant, apply_from: RevisionVariant, fixed_in: RevisionVariant) -> bool {
    !rv_less(current, apply_from) && rv_less(current, fixed_in)
}

/// An erratum applies exactly to the CPUs from `apply_from` on that are older than `fixed_in`,
/// CPUs being ordered by revision, then by variant: never to a CPU older than `apply_from`, nor
/// to one at `fixed_in` or later.
pub proof fn lemma_erratum_applies_range(current: RevisionVariant, apply_from: RevisionVariant, fixed_in: RevisionVariant)
    ensures
        erratum_applies(current, apply_from, fixed_in) <==> {
            &&& (current.revision > apply_from.revision || (current.revision == apply_from.revision
                && current.variant >= apply_from.variant))
            &&& (current.revision < fixed_in.revision || (current.revision == fixed_in.revision
                && current.variant < fixed_in.variant))
        },
        current.revision < apply_from.revision ==> !erratum_applies(current, apply_from, fixed_in),
{
}

/// Returns whether an erratum that affects the revisions from `apply_from` on, and is fixed in
/// `fixed_in`, applies to the CPU with the given MIDR_EL1 value.
pub fn check_erratum(midr: u64, apply_from: RevisionVariant, fixed_in: RevisionVariant) -> (r: bool)
    ensures
        r == erratum_applies(RevisionVariant::from_midr_spec(midr), apply_from, fixed_in),
{
    let current = RevisionVariant::from_midr(midr);
    !current.less_than(apply_from) && current.less_than(fixed_in)
}

impl RevisionVariant {
    /// The revision and variant fields of a MIDR_EL1 value.
    pub open spec fn from_midr_spec(midr: u64) -> Self {
        RevisionVariant {
            revision: (midr & MIDR_REVISION_MASK) as u8,
            variant: ((midr >> MIDR_VARIANT_SHIFT) & MIDR_VARIANT_MASK) as u8,
        }
    }
}

/// Specifies when an erratum workaround should be applied.
#[derive(Clone, Copy, PartialEq, Eq, Debug, Structural)]
pub enum ErratumType {
    /// Apply the workaround at CPU reset, before the stack is set up.
    Reset,
    /// Apply the workaround at runtime by calling the function directly in the platform
    /// implementation.
    Runtime,
}

/// An erratum of a CPU, and its workaround.
pub trait Erratum {
    /// The identifier of the erratum.
    spec fn spec_id() -> ErratumID;
    /// When the workaround is applied.
    spec fn spec_apply_on() -> ErratumType;
    /// The first revision that is not affected.
    spec fn spec_fixed_in() -> RevisionVariant;
    /// The first revision that is affected.
    spec fn spec_apply_from() -> RevisionVariant;
    /// The identifier of the erratum.
    fn id() -> (r: ErratumID)
        ensures
            r == Self::spec_id(),
    ;
    /// The CVE of the erratum, or 0.
    fn cve() -> CVE;
    /// When the workaround is applied.
    fn apply_on() -> (r: ErratumType)
        ensures
            r == Self::spec_apply_on(),
    ;
    /// The first revision that is not affected.
    fn fixed_in() -> (r: RevisionVariant)
        ensures
            r == Self::spec_fixed_in(),
    ;
    /// The first revision that is affected.
    fn apply_from() -> (r: RevisionVariant)
        ensures
            r == Self::spec_apply_from(),
    ;
}

/// The description of an erratum in the errata list: its identifier, when its workaround applies
/// and which revisions it affects.
#[derive(Clone, Copy, PartialEq, Eq, Debug, Structural)]
pub struct ErratumEntry {
    /// The identifier of the erratum.
    pub id: ErratumID,
    /// When the workaround is applied.
    pub apply_on: ErratumType,
    /// The first revision that is not affected.
    pub fixed_in: RevisionVariant,
    /// The first revision that is affected.
    pub apply_from: RevisionVariant,
}

impl ErratumEntry {
    /// Creates an entry from an implementation of the Erratum trait.
    pub fn from_erratum<T: Erratum>() -> (r: Self)
        ensures
            r == (ErratumEntry {
                id: T::spec_id(),
                apply_on: T::spec_apply_on(),
                fixed_in: T::spec_fixed_in(),
                apply_from: T::spec_apply_from(),
            }),
    {
        ErratumEntry {
            id: T::id(),
            apply_on: T::apply_on(),
            fixed_in: T::fixed_in(),
            apply_from: T::apply_from(),
        }
    }

    /// Returns whether the erratum's workaround is applied at reset on the CPU with the given
    /// MIDR_EL1 value.
    pub fn applies_at_reset(&self, midr: u64) -> (r: bool)
        ensures
            r == (self.apply_on == ErratumType::Reset && erratum_applies(
                RevisionVariant::from_midr_spec(midr),
                self.apply_from,
                self.fixed_in,
            )),
    {
        self.apply_on == ErratumType::Reset && check_erratum(midr, self.apply_from, self.fixed_in)
    }
}

/// The identifiers of the errata in `list` whose workarounds are applied at reset on the CPU with
/// the given MIDR_EL1 value, in list order.
pub open spec fn reset_errata_ids(list: Seq<ErratumEntry>, midr: u64) -> Seq<ErratumID>
    decreases list.len(),
{
    if list.len() == 0 {
        Seq::empty()
    } else {
        let e = list.last();
        let rest = reset_errata_ids(list.drop_last(), midr);
        if e.apply_on == ErratumType::Reset && erratum_applies(
            RevisionVariant::from_midr_spec(midr),
            e.apply_from,
            e.fixed_in,
        ) {
            rest.push(e.id)
        } else {
            rest
        }
    }
}

/// Returns the identifiers of the errata in `list` whose workarounds are applied at reset on the
/// CPU with the given MIDR_EL1 value, in list order: those that the reset path works around.
pub fn reset_errata(list: &[ErratumEntry], midr: u64) -> (r: Vec<ErratumID>)
    ensures
        r@ == reset_errata_ids(list@, midr),
{
    let mut out: Vec<ErratumID> = Vec::new();
    let mut i: usize = 0;
    while i < list.len()
        invariant
            i <= list@.len(),
            out@ == reset_errata_ids(list@.subrange(0, i as int), midr),
        decreases list@.len() - i,
    {
        assert(list@.subrange(0, i as int + 1).drop_last() =~= list@.subrange(0, i as int));
        if list[i].applies_at_reset(midr) {
            out.push(list[i].id);
        }
        i = i + 1;
    }
    assert(list@.subrange(0, list@.len() as int) =~= list@);
    out
}

} // verus!
