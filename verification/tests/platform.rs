use rf_a::aarch64::{
    aem_power_down_level0_flushes_l2, clidr_cache_type, read_cache_size, set_way_geometry,
    set_way_operand, CacheSize, CacheType,
};
use rf_a::cpu::{cpu_power_down, find_cpu_ops, AemGeneric, CortexA78, CpuOps, PowerDownLevel, QemuMax};
use rf_a::delay_timer::{ClockTick, LogicalTimer};
use rf_a::pagetable::{image_regions, BootRegion, RegionKind};
use rf_a::platform::fvp::{
    device_regions_include, Fvp, ATTESTATION_TOKEN, ATTESTION_KEY_ECC_SECP384R1, HW_CONFIG_ADDRESS,
    HW_CONFIG_ADDRESS_NS, NT_FW_CONFIG_ADDRESS, RMM_BOOT_VERSION, RMM_SHARED_BUFFER_START,
    TOS_FW_CONFIG_ADDRESS,
};
use rf_a::platform::qemu::Qemu;

#[test]
fn fvp_entry_points() {
    let s = Fvp::secure_entry_point(3);
    assert_eq!(s.pc, 0x0600_0000);
    assert_eq!(s.spsr, 0x3C5);
    assert_eq!(s.args, [TOS_FW_CONFIG_ADDRESS, HW_CONFIG_ADDRESS, 0, 0, 3, 0, 0, 0]);
    let ns = Fvp::non_secure_entry_point();
    assert_eq!(ns.pc, 0x8800_0000);
    assert_eq!(ns.spsr, 0x3C9);
    assert_eq!(ns.args, [NT_FW_CONFIG_ADDRESS, HW_CONFIG_ADDRESS_NS, 0, 0, 0, 0, 0, 0]);
    let r = Fvp::realm_entry_point(5);
    assert_eq!(r.pc, 0xfdc0_0000);
    assert_eq!(r.args, [5, RMM_BOOT_VERSION, 8, RMM_SHARED_BUFFER_START as u64, 0, 0, 0, 0]);
}

#[test]
fn qemu_entry_points() {
    let s = Qemu::secure_entry_point(1);
    assert_eq!(s.pc, 0x0e10_0000);
    assert_eq!(s.spsr, 0x3C5);
    assert_eq!(s.args[4], 1);
    let ns = Qemu::non_secure_entry_point();
    assert_eq!(ns.pc, 0x6000_0000);
    assert_eq!(ns.spsr, 0x3C9);
    assert_eq!(ns.args, [0; 8]);
}

#[test]
fn fvp_attestation_key_in_hunks() {
    let mut buf = [0xaau8; 64];
    assert_eq!(Fvp::write_attestion_key_ecc_secp384r1(&mut buf, 40), Ok(8));
    assert_eq!(&buf[..8], &ATTESTION_KEY_ECC_SECP384R1[40..48]);
    assert_eq!(buf[8], 0xaa);
    let mut small = [0u8; 20];
    assert_eq!(Fvp::write_attestion_key_ecc_secp384r1(&mut small, 0), Ok(20));
    assert_eq!(&small[..], &ATTESTION_KEY_ECC_SECP384R1[..20]);
    assert_eq!(Fvp::write_attestion_key_ecc_secp384r1(&mut small, 19), Ok(20));
    // The start index must be an index of the buffer.
    assert_eq!(Fvp::write_attestion_key_ecc_secp384r1(&mut small, 20), Err(()));
}

#[test]
fn fvp_attestation_token_in_hunks() {
    let mut buf = [0u8; 1000];
    assert_eq!(Fvp::write_attestation_token(&mut buf, &[], 0), Ok((1000, 518)));
    assert_eq!(&buf[..], &ATTESTATION_TOKEN[..1000]);
    assert_eq!(Fvp::write_attestation_token(&mut buf, &[], 1000), Err(()));
    let mut big = [0u8; 1024];
    assert_eq!(Fvp::write_attestation_token(&mut big, &[], 1000), Ok((518, 0)));
    assert_eq!(&big[..518], &ATTESTATION_TOKEN[1000..]);
}

#[test]
fn fvp_device_regions() {
    // The UART of the IOFPGA, and the last redistributor of the GIC.
    assert!(device_regions_include(0x1c09_0000, 0x1000));
    assert!(device_regions_include(0x2f1e_0000, 0x2_0000));
    // A range across the end of the GIC region, and one outside all regions.
    assert!(!device_regions_include(0x2f1f_0000, 0x2_0000));
    assert!(!device_regions_include(0x3000_0000, 4));
    assert!(device_regions_include(0x2c1f_fff0, 0x10));
    assert!(!device_regions_include(0x2c1f_fff0, 0x11));
}

#[test]
fn image_regions_of_layout() {
    let regions = image_regions(0x0600_0000);
    assert_eq!(
        regions,
        vec![
            BootRegion { start: 0x6_0000, end: 0x10_0000, kind: RegionKind::Memory },
            BootRegion { start: 0x1_0000, end: 0x3_0000, kind: RegionKind::Code },
            BootRegion { start: 0x3_0000, end: 0x4_0000, kind: RegionKind::RoData },
        ]
    );
}

#[test]
fn cache_identification() {
    // L1 separate, L2 unified, no L3.
    let clidr = 0b011 | (0b100 << 3);
    assert_eq!(clidr_cache_type(clidr, 1), CacheType::SeparateInstructionAndData);
    assert_eq!(clidr_cache_type(clidr, 2), CacheType::Unified);
    assert_eq!(clidr_cache_type(clidr, 3), CacheType::NoCache);
    assert!(!aem_power_down_level0_flushes_l2(clidr));
    assert!(aem_power_down_level0_flushes_l2(clidr | (0b100 << 6)));

    // 32 KiB, 4-way, 64-byte lines: 128 sets.
    let ccsidr = (127 << 13) | (3 << 3) | 2;
    let size = read_cache_size(ccsidr, false);
    assert_eq!(size, CacheSize { num_sets: 127, associativity: 3, line_size_log: 2 });
    let size64 = read_cache_size((127u64 << 32) | (3 << 3) | 2, true);
    assert_eq!(size64, size);

    let g = set_way_geometry(1, &size);
    assert_eq!(g.level_bits, 2);
    assert_eq!(g.way_step, 1 << 30);
    assert_eq!(g.ways_aligned, 3 << 30);
    assert_eq!(g.set_step, 64);
    assert_eq!(g.max_set, 127 << 6);
    assert_eq!(set_way_operand(&g, 2 << 30, 5 << 6), 2 | (2 << 30) | (5 << 6));
}

#[test]
fn cpu_ops_lookup() {
    let ops = [CpuOps::from_cpu::<AemGeneric>(), CpuOps::from_cpu::<CortexA78>(), CpuOps::from_cpu::<QemuMax>()];
    assert_eq!(find_cpu_ops(&ops, 0x410f_d0f0), Some(0));
    // Variant and revision do not take part.
    assert_eq!(find_cpu_ops(&ops, 0x412f_d411), Some(1));
    assert_eq!(find_cpu_ops(&ops, 0x000f_0510), Some(2));
    assert_eq!(find_cpu_ops(&ops, 0x410f_d0c0), None);
    assert_eq!(cpu_power_down(0), PowerDownLevel::Level0);
    assert_eq!(cpu_power_down(2), PowerDownLevel::Level1);
}

#[test]
fn delay_timer_ticks() {
    // 1 us at 100 MHz is 100 ticks, plus one.
    assert_eq!(ClockTick::from_micros(1, 100_000_000), ClockTick(101));
    // 1 us at 1 kHz rounds up to one tick, plus one.
    assert_eq!(ClockTick::from_micros(1, 1_000), ClockTick(2));
    assert_eq!(ClockTick::from_micros(0, 1_000), ClockTick(1));

    let timer = LogicalTimer::new(10, 1_000_000, u64::MAX - 5);
    assert_eq!(timer.ticks_to_wait, ClockTick(11));
    assert!(!timer.expired(u64::MAX));
    assert!(!timer.expired(4));
    assert!(timer.expired(5));
}
