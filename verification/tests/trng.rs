use rf_a::services::trng::{
    handle_smc_common, trng_rnd32, trng_rnd64, EntropyPool, NotSupportedTrngPlatformImpl,
    TrngError, TrngPlatformInterface, ARM_TRNG_FEATURES, ARM_TRNG_GET_UUID, ARM_TRNG_RND32,
    ARM_TRNG_RND64, ARM_TRNG_VERSION, BITS_IN_POOL, BITS_PER_WORD, TRNG_RND32_ENTROPY_MAXBITS,
    TRNG_RND64_ENTROPY_MAXBITS, TRNG_VERSION, WORDS_IN_POOL,
};
use rf_a::smccc::SmcReturn;

/// An entropy source that returns all ones, with a non-nil UUID.
struct AllOnes;

const TEST_UUID: u128 = 0x0123_4567_89ab_cdef_fedc_ba98_7654_3210;

impl TrngPlatformInterface for AllOnes {
    fn spec_trng_uuid() -> u128 {
        TEST_UUID
    }

    fn trng_uuid() -> u128 {
        TEST_UUID
    }

    fn entropy_setup() {}

    fn get_entropy() -> Result<[u64; 1], TrngError> {
        Ok([u64::MAX])
    }
}

/// An entropy source that counts the words it hands out.
struct Counting;

static NEXT: std::sync::atomic::AtomicU64 = std::sync::atomic::AtomicU64::new(1);

impl TrngPlatformInterface for Counting {
    fn spec_trng_uuid() -> u128 {
        1
    }

    fn trng_uuid() -> u128 {
        1
    }

    fn entropy_setup() {}

    fn get_entropy() -> Result<[u64; 1], TrngError> {
        Ok([NEXT.fetch_add(1, std::sync::atomic::Ordering::Relaxed)])
    }
}

fn regs_with(values: &[u64]) -> [u64; 18] {
    let mut regs = [0u64; 18];
    regs[..values.len()].copy_from_slice(values);
    regs
}

#[test]
fn pack_entropy_less_than_word() {
    let mut pool = EntropyPool::new();
    let mut out = [0u64; 1];

    let nbits = 23;
    pool.pack_entropy::<AllOnes>(nbits, &mut out).unwrap();
    assert_eq!(out[0], (1u64 << nbits).wrapping_sub(1));
    assert_eq!(pool.entropy_bit_size(), BITS_PER_WORD - nbits);
    assert_eq!(pool.entropy_bit_index(), nbits);
}

#[test]
fn pack_entropy_one_word() {
    let mut pool = EntropyPool::new();
    let mut out = [0u64; 2];

    let nbits = 64;
    pool.pack_entropy::<AllOnes>(nbits, &mut out).unwrap();
    assert_eq!(out[0], u64::MAX);
    assert_eq!(out[1], 0); // Not enough bits for out[1].
    assert_eq!(pool.entropy_bit_size(), 0);
    assert_eq!(pool.entropy_bit_index(), nbits % BITS_IN_POOL);
}

#[test]
fn pack_entropy_multiple_words() {
    let mut pool = EntropyPool::new();
    let mut out = [0u64; 3];

    let nbits = 192;
    pool.pack_entropy::<AllOnes>(nbits, &mut out).unwrap();
    assert_eq!(out[0], u64::MAX);
    assert_eq!(out[1], u64::MAX);
    assert_eq!(out[2], u64::MAX);
    assert_eq!(pool.entropy_bit_size(), 0);
    assert_eq!(pool.entropy_bit_index(), nbits % BITS_IN_POOL);
}

#[test]
fn pack_entropy_unaligned_requests() {
    let mut pool = EntropyPool::new();
    let mut out = [0u64; 1];

    // Request 30 bits first.
    let nbits0 = 30;
    pool.pack_entropy::<AllOnes>(nbits0, &mut out).unwrap();
    assert_eq!(out[0], (1u64 << nbits0).wrapping_sub(1));
    assert_eq!(pool.entropy_bit_size(), BITS_PER_WORD - nbits0);
    assert_eq!(pool.entropy_bit_index(), nbits0);

    // Request another 50 bits.
    out[0] = 0;
    let nbits1 = 50;
    pool.pack_entropy::<AllOnes>(nbits1, &mut out).unwrap();
    assert_eq!(out[0], (1u64 << nbits1).wrapping_sub(1));
    assert_eq!(pool.entropy_bit_size(), BITS_PER_WORD * 2 - nbits0 - nbits1);
    assert_eq!(pool.entropy_bit_index(), (nbits0 + nbits1) % BITS_IN_POOL);
}

#[test]
fn pack_entropy_wraps_around_pool() {
    let mut pool = EntropyPool::from_parts(
        [u64::MAX; WORDS_IN_POOL],
        BITS_IN_POOL - 32, // Start 32 bits from the end
        BITS_IN_POOL,
    );

    let mut out = [0u64; 2];
    let nbits = 64;
    // This request will take 32 bits from the last word and 32 from the first.
    pool.pack_entropy::<AllOnes>(nbits, &mut out).unwrap();

    assert_eq!(out[0], u64::MAX);
    assert_eq!(pool.entropy_bit_index(), (BITS_IN_POOL - 32 + nbits) % BITS_IN_POOL);
    assert_eq!(pool.entropy_bit_size(), BITS_IN_POOL - nbits);
}

#[test]
fn pack_entropy_all_bits() {
    let mut pool = EntropyPool::new();
    let mut out = [0u64; 4];

    let nbits = BITS_IN_POOL;
    pool.pack_entropy::<AllOnes>(nbits, &mut out).unwrap();
    assert_eq!(out[0], u64::MAX);
    assert_eq!(out[1], u64::MAX);
    assert_eq!(out[2], u64::MAX);
    assert_eq!(out[3], u64::MAX);
    assert_eq!(pool.entropy_bit_size(), 0);
    assert_eq!(pool.entropy_bit_index(), 0);
}

/// Bits come out in the order they sit in the pool, across word boundaries, and the bits that
/// were handed out are cleared from the pool.
#[test]
fn pack_entropy_unaligned_bit_order() {
    let words = [0x1111_2222_3333_4444, 0x5555_6666_7777_8888, 0x9999_aaaa_bbbb_cccc, 0xdddd_eeee_ffff_0000];
    let mut pool = EntropyPool::from_parts(words, 16, 200);
    let mut out = [7u64; 3];
    pool.pack_entropy::<AllOnes>(100, &mut out).unwrap();
    assert_eq!(out[0], (words[0] >> 16) | (words[1] << 48));
    assert_eq!(out[1], ((words[1] >> 16) | (words[2] << 48)) & ((1u64 << 36) - 1));
    assert_eq!(out[2], 0);
    assert_eq!(pool.entropy_bit_index(), 116);
    assert_eq!(pool.entropy_bit_size(), 100);
    let left = pool.entropy();
    assert_eq!(left[0], 0);
    assert_eq!(left[1] & ((1u64 << 52) - 1), 0);
    assert_eq!(left[1] >> 52, words[1] >> 52);
    assert_eq!(left[2], words[2]);
}

#[test]
fn pack_entropy_source_failure_leaves_output() {
    let mut pool = EntropyPool::new();
    let mut out = [5u64; 1];
    assert_eq!(
        pool.pack_entropy::<NotSupportedTrngPlatformImpl>(10, &mut out),
        Err(TrngError::NotSupported)
    );
    assert_eq!(out, [5]);
    assert_eq!(pool.entropy_bit_size(), 0);
}

#[test]
fn fill_entropy_takes_words_from_source() {
    let mut pool = EntropyPool::new();
    pool.fill_entropy::<Counting>(100).unwrap();
    assert_eq!(pool.entropy_bit_size(), 128);
    assert_eq!(pool.entropy_bit_index(), 0);
    let e = pool.entropy();
    assert_ne!(e[0], 0);
    assert_eq!(e[1], e[0] + 1);
}

#[test]
fn trng_rnd_invalid_nbits() {
    let mut pool = EntropyPool::new();
    let invalid = SmcReturn::from_i32(-2);
    assert_eq!(trng_rnd32::<AllOnes>(&mut pool, 0), invalid);
    assert_eq!(trng_rnd32::<AllOnes>(&mut pool, TRNG_RND32_ENTROPY_MAXBITS + 1), invalid);
    assert_eq!(trng_rnd64::<AllOnes>(&mut pool, 0), invalid);
    assert_eq!(trng_rnd64::<AllOnes>(&mut pool, TRNG_RND64_ENTROPY_MAXBITS + 1), invalid);
    assert_eq!(pool.entropy_bit_size(), 0);
}

#[test]
fn trng_rnd_returns_packed_bits() {
    let mut pool = EntropyPool::new();
    let r = trng_rnd32::<AllOnes>(&mut pool, 12);
    assert_eq!(r.values(), [0, 0, 0, (1u64 << 12) - 1]);
    let r = trng_rnd32::<AllOnes>(&mut pool, TRNG_RND32_ENTROPY_MAXBITS);
    assert_eq!(r.values(), [0, u32::MAX as u64, u32::MAX as u64, u32::MAX as u64]);
    let r = trng_rnd64::<AllOnes>(&mut pool, 51);
    assert_eq!(r.values(), [0, 0, 0, (1u64 << 51) - 1]);
    let r = trng_rnd64::<AllOnes>(&mut pool, TRNG_RND64_ENTROPY_MAXBITS);
    assert_eq!(r.values(), [0, u64::MAX, u64::MAX, u64::MAX]);
}

#[test]
fn trng_calls_without_source_are_not_supported() {
    let mut pool = EntropyPool::new();
    let r = handle_smc_common::<NotSupportedTrngPlatformImpl>(&mut pool, &regs_with(&[ARM_TRNG_VERSION.into()]));
    assert_eq!(r, SmcReturn::from_i32(-1));
}

#[test]
fn trng_info_calls() {
    let mut pool = EntropyPool::new();
    let r = handle_smc_common::<AllOnes>(&mut pool, &regs_with(&[ARM_TRNG_VERSION.into()]));
    assert_eq!(r.values(), [TRNG_VERSION as u64]);
    let r = handle_smc_common::<AllOnes>(&mut pool, &regs_with(&[ARM_TRNG_FEATURES.into(), ARM_TRNG_RND32.into()]));
    assert_eq!(r, SmcReturn::from_i32(0));
    let r = handle_smc_common::<AllOnes>(&mut pool, &regs_with(&[ARM_TRNG_FEATURES.into(), 0x8400_0000]));
    assert_eq!(r, SmcReturn::from_i32(-1));
    let r = handle_smc_common::<AllOnes>(&mut pool, &regs_with(&[ARM_TRNG_GET_UUID.into()]));
    let v = r.values();
    let uuid = v[0] as u128 | (v[1] as u128) << 32 | (v[2] as u128) << 64 | (v[3] as u128) << 96;
    assert_eq!(uuid, TEST_UUID);
    let r = handle_smc_common::<AllOnes>(&mut pool, &regs_with(&[ARM_TRNG_RND64.into(), 51]));
    assert_eq!(r.values(), [0, 0, 0, (1u64 << 51) - 1]);
}

#[test]
fn trng_version() {
    let mut pool = EntropyPool::new();
    let ret = handle_smc_common::<AllOnes>(&mut pool, &regs_with(&[ARM_TRNG_VERSION as u64]));
    assert_eq!(ret, SmcReturn::from_u32(TRNG_VERSION));
}

#[test]
fn trng_features() {
    let mut pool = EntropyPool::new();
    // Supported feature
    let ret = handle_smc_common::<AllOnes>(
        &mut pool,
        &regs_with(&[ARM_TRNG_FEATURES as u64, ARM_TRNG_RND32 as u64]),
    );
    assert_eq!(ret, SmcReturn::from_i32(0));

    // Unsupported feature
    let ret = handle_smc_common::<AllOnes>(&mut pool, &regs_with(&[ARM_TRNG_FEATURES as u64, 0x8400_0000_u64]));
    assert_eq!(ret, TrngError::NotSupported.to_smc_return());
}

#[test]
fn trng_get_uuid() {
    let mut pool = EntropyPool::new();
    let ret = handle_smc_common::<AllOnes>(&mut pool, &regs_with(&[ARM_TRNG_GET_UUID as u64]));
    let v = ret.values();
    let actual_uuid = v[0] as u128 | ((v[1] as u128) << 32) | ((v[2] as u128) << 64) | ((v[3] as u128) << 96);
    assert_eq!(actual_uuid, TEST_UUID);
}

#[test]
fn trng_rnd32_invalid_nbits() {
    let mut pool = EntropyPool::new();
    // nbits == 0
    let ret = handle_smc_common::<AllOnes>(&mut pool, &regs_with(&[ARM_TRNG_RND32 as u64, 0]));
    assert_eq!(ret, TrngError::InvalidParams.to_smc_return());

    // nbits > max
    let ret = handle_smc_common::<AllOnes>(
        &mut pool,
        &regs_with(&[ARM_TRNG_RND32 as u64, (TRNG_RND32_ENTROPY_MAXBITS + 1) as u64]),
    );
    assert_eq!(ret, TrngError::InvalidParams.to_smc_return());
}

#[test]
fn trng_rnd64_invalid_nbits() {
    let mut pool = EntropyPool::new();
    // nbits = 0
    let ret = handle_smc_common::<AllOnes>(&mut pool, &regs_with(&[ARM_TRNG_RND64 as u64, 0]));
    assert_eq!(ret, TrngError::InvalidParams.to_smc_return());

    // nbits > max
    let ret = handle_smc_common::<AllOnes>(
        &mut pool,
        &regs_with(&[ARM_TRNG_RND64 as u64, (TRNG_RND64_ENTROPY_MAXBITS + 1) as u64]),
    );
    assert_eq!(ret, TrngError::InvalidParams.to_smc_return());
}

#[test]
fn trng_rnd32_get_entropy() {
    let mut pool = EntropyPool::new();
    let nbits = 12;
    let ret = handle_smc_common::<AllOnes>(&mut pool, &regs_with(&[ARM_TRNG_RND32 as u64, nbits]));
    let expected_entropy = (1u64 << nbits).wrapping_sub(1);
    let expected = SmcReturn::from_slice(&[0, 0, 0, expected_entropy]);
    assert_eq!(ret, expected);

    let ret = handle_smc_common::<AllOnes>(
        &mut pool,
        &regs_with(&[ARM_TRNG_RND32 as u64, TRNG_RND32_ENTROPY_MAXBITS as u64]),
    );
    let expected = SmcReturn::from_slice(&[0, u32::MAX as u64, u32::MAX as u64, u32::MAX as u64]);
    assert_eq!(ret, expected);
}

#[test]
fn trng_rnd64_get_entropy() {
    let mut pool = EntropyPool::new();
    let nbits = 51;
    let ret = handle_smc_common::<AllOnes>(&mut pool, &regs_with(&[ARM_TRNG_RND64 as u64, nbits]));
    let expected_entropy: u64 = (1u64 << nbits).wrapping_sub(1);
    let expected = SmcReturn::from_slice(&[0, 0, 0, expected_entropy]);
    assert_eq!(ret, expected);

    let ret = handle_smc_common::<AllOnes>(
        &mut pool,
        &regs_with(&[ARM_TRNG_RND64 as u64, TRNG_RND64_ENTROPY_MAXBITS as u64]),
    );
    let expected = SmcReturn::from_slice(&[0, u64::MAX, u64::MAX, u64::MAX]);
    assert_eq!(ret, expected);
}
