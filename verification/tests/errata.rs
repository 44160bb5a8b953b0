use rf_a::errata_framework::{Erratum, ErratumEntry, ErratumID, ErratumType, RevisionVariant, CVE};

struct Erratum1234;

impl Erratum for Erratum1234 {
    fn spec_id() -> ErratumID {
        1234
    }
    fn spec_apply_on() -> ErratumType {
        ErratumType::Reset
    }
    fn spec_fixed_in() -> RevisionVariant {
        RevisionVariant::new(1, 2)
    }
    fn spec_apply_from() -> RevisionVariant {
        RevisionVariant::new(0, 0)
    }
    fn id() -> ErratumID {
        1234
    }
    fn cve() -> CVE {
        0
    }
    fn apply_on() -> ErratumType {
        ErratumType::Reset
    }
    fn fixed_in() -> RevisionVariant {
        RevisionVariant::new(1, 2)
    }
    fn apply_from() -> RevisionVariant {
        RevisionVariant::new(0, 0)
    }
}

#[test]
fn erratum_entry_from_erratum() {
    let e = ErratumEntry::from_erratum::<Erratum1234>();
    assert_eq!(e.id, 1234);
    assert_eq!(e.apply_on, ErratumType::Reset);
    assert_eq!(e.fixed_in, RevisionVariant::new(1, 2));
    assert_eq!(e.apply_from, RevisionVariant::new(0, 0));
    // Everything before revision 1, variant 2 is affected at reset.
    assert!(e.applies_at_reset(0x0000_0000));
    assert!(e.applies_at_reset(0x0010_0001));
    assert!(!e.applies_at_reset(0x0020_0001));
    assert!(!e.applies_at_reset(0x0010_0002));
}
