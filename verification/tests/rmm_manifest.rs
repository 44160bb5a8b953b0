use rf_a::platform::fvp::{Fvp, NT_FW_CONFIG_ADDRESS};
use rf_a::services::rmmd::manifest::{
    BdfMappingInfo, ManifestListKind, RmmBootManifest, RmmBootManifestVersion, RmmConsoleInfo,
    RmmMemoryBank, RmmRootComplexInfo, RmmRootPortInfo, RmmSmmuInfo, PAGE_WORDS,
    RMM_BOOT_MANIFEST_VERSION,
};

const BASE: u64 = 0x1000_0000;

fn neg(sum: u64) -> u64 {
    sum.wrapping_neg()
}

fn wsum(words: &[u64]) -> u64 {
    words.iter().fold(0u64, |a, w| a.wrapping_add(*w))
}

#[test]
fn manifest_version_fields() {
    let v = RmmBootManifestVersion::new(0, 5);
    assert_eq!(v.0, RMM_BOOT_MANIFEST_VERSION);
    assert_eq!(v.major(), 0);
    assert_eq!(v.minor(), 5);
    let v = RmmBootManifestVersion::new(0xffff, 0x1234);
    assert_eq!(v.0, 0x7fff_1234);
    assert_eq!(v.major(), 0x7fff);
    assert_eq!(v.minor(), 0x1234);
}

#[test]
fn manifest_new_places_lists_after_header() {
    let mut page = vec![0xdead_beefu64; PAGE_WORDS];
    RmmBootManifest::new(&mut page, BASE, 2, 1, 0, 0, 0, &[]);
    assert_eq!(page[0], 5);
    assert_eq!(page[1], 0);
    // DRAM list: 2 banks of 2 words at word 21.
    assert_eq!(page[2], 2);
    assert_eq!(page[3], BASE + 168);
    assert_eq!(page[4], neg(2 + BASE + 168));
    // Console list: 1 item of 6 words at word 25.
    assert_eq!(page[5], 1);
    assert_eq!(page[6], BASE + 200);
    assert_eq!(page[7], neg(1 + BASE + 200));
    // Empty lists keep a zero header, and everything else is zeroed.
    for (i, w) in page.iter().enumerate().skip(8) {
        assert_eq!(*w, 0, "word {i}");
    }
    let m = RmmBootManifest::from_page(&page);
    assert_eq!(m.version, RmmBootManifestVersion::new(0, 5));
    assert_eq!(m.plat_dram.num_entries, 2);
    assert_eq!(m.plat_dram.entries_ptr, BASE + 168);
    assert_eq!(m.plat_console.num_entries, 1);
    assert_eq!(m.plat_smmu.num_entries, 0);
    assert_eq!(m.plat_root_complex.num_entries, 0);
}

#[test]
fn manifest_new_nested_root_complexes() {
    let mut page = vec![0u64; PAGE_WORDS];
    let complexes = vec![vec![1, 0, 2], vec![]];
    RmmBootManifest::new(&mut page, BASE, 1, 0, 0, 0, 0, &complexes);
    // DRAM at 21..23, root complex list of 2 complexes at 23..29.
    assert_eq!(page[17], 2);
    assert_eq!(page[18], 0);
    let rc_ptr = BASE + 8 * 23;
    assert_eq!(page[19], rc_ptr);
    let c0 = RmmRootComplexInfo::from_words(&[page[23], page[24], page[25]]);
    assert_eq!(c0.num_entries, 3);
    assert_eq!(c0.entries_ptr, BASE + 8 * 29);
    let c1 = RmmRootComplexInfo::from_words(&[page[26], page[27], page[28]]);
    assert_eq!(c1.num_entries, 0);
    assert_eq!(c1.entries_ptr, 0);
    // Ports of complex 0 at 29..35, then their mapping lists.
    let p0 = RmmRootPortInfo::from_words(&[page[29], page[30]]);
    assert_eq!(p0.num_entries, 1);
    assert_eq!(p0.entries_ptr, BASE + 8 * 35);
    let p1 = RmmRootPortInfo::from_words(&[page[31], page[32]]);
    assert_eq!(p1.num_entries, 0);
    assert_eq!(p1.entries_ptr, 0);
    let p2 = RmmRootPortInfo::from_words(&[page[33], page[34]]);
    assert_eq!(p2.num_entries, 2);
    assert_eq!(p2.entries_ptr, BASE + 8 * 36);
    // The checksum covers the list, its complexes and their ports.
    let sum = wsum(&[2, rc_ptr, 3, BASE + 8 * 29, 1, BASE + 8 * 35, 2, BASE + 8 * 36]);
    assert_eq!(page[20], neg(sum));
    for (i, w) in page.iter().enumerate().skip(38) {
        assert_eq!(*w, 0, "word {i}");
    }
}

#[test]
fn manifest_write_item_updates_checksum() {
    let mut page = vec![0u64; PAGE_WORDS];
    RmmBootManifest::new(&mut page, BASE, 0, 0, 0, 0, 2, &[]);
    let smmu = RmmSmmuInfo { smmu_base: u64::MAX, smmu_r_base: 0x1234 };
    RmmBootManifest::write_list_item(&mut page, BASE, ManifestListKind::Smmu, 1, &smmu.words());
    assert_eq!(&page[21..25], &[0, 0, u64::MAX, 0x1234]);
    let total = wsum(&[page[14], page[15], page[21], page[22], page[23], page[24], page[16]]);
    assert_eq!(total, 0);
}

#[test]
fn manifest_item_words() {
    let bank = RmmMemoryBank { base: 1, size: 2 };
    assert_eq!(bank.words(), [1, 2]);
    let console = RmmConsoleInfo {
        base: 3,
        map_pages: 4,
        name: *b"pl011\0\0\0",
        clk_in_hz: 5,
        baud_rate: 6,
        flags: 7,
    };
    assert_eq!(console.words(), [3, 4, 0x0000_0031_3130_6c70, 5, 6, 7]);
    let bdf = BdfMappingInfo { mapping_base: 1, mapping_top: 2, mapping_off: 3, smmu_idx: 4 };
    assert_eq!(bdf.word(), 0x0004_0003_0002_0001);
}

#[test]
fn fvp_manifest_lists_dram_and_console() {
    let mut page = vec![0u64; PAGE_WORDS];
    Fvp::rme_prepare_manifest(&mut page, BASE);
    assert_eq!(&page[21..25], &[NT_FW_CONFIG_ADDRESS, 0x7c00_0000, 0x0008_8000_0000, 0x0000_8000_0000]);
    assert_eq!(&page[25..31], &[0x1C09_0000, 1, 0x0000_0031_3130_6c70, 0x00e1_0000, 0x1c200, 0]);
    let dram = wsum(&[page[2], page[3], page[4], page[21], page[22], page[23], page[24]]);
    assert_eq!(dram, 0);
    let console = wsum(&[page[5], page[6], page[7], page[25], page[26], page[27], page[28], page[29], page[30]]);
    assert_eq!(console, 0);
}
