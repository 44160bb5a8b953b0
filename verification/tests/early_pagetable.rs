use rf_a::pagetable::early_pagetable::{build_ranges, get_range_count, DescriptorRange, EarlyRegion};

#[test]
fn map_empty() {
    let regions: [EarlyRegion; 0] = [];
    assert_eq!(get_range_count(&regions), 0);
    let (ranges, size) = build_ranges::<0>(&regions);

    assert_eq!(ranges, []);
    assert_eq!(0x1000, size);
}

#[test]
fn map_level0() {
    let regions = [EarlyRegion { address_range: 0x8000_0000..0xC000_0000, attributes: 0x10 }];
    assert_eq!(get_range_count(&regions), 1);
    let (ranges, size) = build_ranges::<1>(&regions);

    assert_eq!(
        [DescriptorRange { index: 0x0010, step_count: 0x4000_0001, value: 0x8000_0011 }],
        ranges
    );
    assert_eq!(0x1000, size);
}

#[test]
fn map_level1() {
    let regions = [EarlyRegion { address_range: 0x8000_0000..0x8040_0000, attributes: 0x20 }];
    assert_eq!(get_range_count(&regions), 2);
    let (ranges, size) = build_ranges::<2>(&regions);

    assert_eq!(
        [
            DescriptorRange { index: 0x0010, step_count: 0, value: 0x0000_1003 },
            DescriptorRange { index: 0x1000, step_count: 0x0020_0002, value: 0x8000_0021 },
        ],
        ranges
    );
    assert_eq!(0x2000, size);
}

#[test]
fn map_level2() {
    let regions = [EarlyRegion { address_range: 0x8000_0000..0x8000_3000, attributes: 0x30 }];
    assert_eq!(get_range_count(&regions), 3);
    let (ranges, size) = build_ranges::<3>(&regions);

    assert_eq!(
        [
            DescriptorRange { index: 0x0010, step_count: 0, value: 0x0000_1003 },
            DescriptorRange { index: 0x1000, step_count: 0, value: 0x0000_2003 },
            DescriptorRange { index: 0x2000, step_count: 0x0000_1003, value: 0x8000_0033 },
        ],
        ranges
    );
    assert_eq!(0x3000, size);
}

#[test]
fn map_complex() {
    let regions = [
        EarlyRegion { address_range: 0x0000_0000..0x4000_0000, attributes: 0x10 },
        EarlyRegion { address_range: 0x4000_0000..0x4040_0000, attributes: 0x20 },
        EarlyRegion { address_range: 0x8000_0000..0x8000_3000, attributes: 0x30 },
    ];
    assert_eq!(get_range_count(&regions), 6);
    let (ranges, size) = build_ranges::<6>(&regions);

    assert_eq!(
        [
            DescriptorRange { index: 0x0000, step_count: 0x4000_0001, value: 0x0000_0011 },
            DescriptorRange { index: 0x0008, step_count: 0, value: 0x0000_1003 },
            DescriptorRange { index: 0x1000, step_count: 0x020_0002, value: 0x4000_0021 },
            DescriptorRange { index: 0x0010, step_count: 0, value: 0x0000_2003 },
            DescriptorRange { index: 0x2000, step_count: 0x0000_0000, value: 0x0000_3003 },
            DescriptorRange { index: 0x3000, step_count: 0x0000_1003, value: 0x8000_0033 },
        ],
        ranges
    );
    assert_eq!(0x4000, size);
}

/// Slots past the counted ranges stay empty.
#[test]
fn map_level0_spare_slots() {
    let regions = [EarlyRegion { address_range: 0x8000_0000..0xC000_0000, attributes: 0x10 }];
    let (ranges, size) = build_ranges::<2>(&regions);

    assert_eq!(
        [
            DescriptorRange { index: 0x0010, step_count: 0x4000_0001, value: 0x8000_0011 },
            DescriptorRange { index: 0, step_count: 0, value: 0 },
        ],
        ranges
    );
    assert_eq!(0x1000, size);
}

#[test]
fn map_block_at_table_end() {
    let regions = [EarlyRegion { address_range: 0x3FE0_0000..0x8000_0000, attributes: 0x10 }];
    assert_eq!(get_range_count(&regions), 3);
    let (ranges, size) = build_ranges::<3>(&regions);

    assert_eq!(
        [
            DescriptorRange { index: 0x0000, step_count: 0, value: 0x0000_1003 },
            DescriptorRange { index: 0x1FF8, step_count: 0x0020_0001, value: 0x3FE0_0011 },
            DescriptorRange { index: 0x0008, step_count: 0x4000_0001, value: 0x4000_0011 },
        ],
        ranges
    );
    assert_eq!(0x2000, size);
}
