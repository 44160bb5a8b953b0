//! TRNG Firmware Interface (Arm DEN 0098): an entropy pool fed by the platform's entropy source,
//! and the SMC calls that hand out its bits.

use crate::smccc::{i32_reg, FunctionId, SmcReturn, SUCCESS, SVE_HINT_BIT};
use vstd::prelude::*;

verus! {

broadcast use vstd::array::group_array_axioms;

/// ARM_TRNG_VERSION function identifier.
pub const ARM_TRNG_VERSION: u32 = 0x8400_0050;
/// ARM_TRNG_FEATURES function identifier.
pub const ARM_TRNG_FEATURES: u32 = 0x8400_0051;
/// ARM_TRNG_GET_UUID function identifier.
pub const ARM_TRNG_GET_UUID: u32 = 0x8400_0052;
/// ARM_TRNG_RND function identifier, SMC32.
pub const ARM_TRNG_RND32: u32 = 0x8400_0053;
/// ARM_TRNG_RND function identifier, SMC64.
pub const ARM_TRNG_RND64: u32 = 0xC400_0053;

/// Lowest TRNG function number.
pub const TRNG_FN_NUM_MIN: u16 = 0x50;
/// Highest TRNG function number.
pub const TRNG_FN_NUM_MAX: u16 = 0x53;

/// TRNG interface version implemented: 1.0, as `major << 16 | minor`.
pub const TRNG_VERSION: u32 = 0x0001_0000;

/// The largest number of bits an SMC32 request may ask for.
pub const TRNG_RND32_ENTROPY_MAXBITS: usize = 96;
/// The largest number of bits an SMC64 request may ask for.
pub const TRNG_RND64_ENTROPY_MAXBITS: usize = 192;

/// Bits in a pool word.
pub const BITS_PER_WORD: usize = 64;
/// The number of 64-bit words per request from the platform's entropy source.
pub const REQ_WORDS: usize = 1;
/// Words in the pool: enough for the largest request, plus one extra request from the source in
/// the worst case where the pool is less than one word short.
pub const WORDS_IN_POOL: usize = 4;
/// Bits in the pool.
pub const BITS_IN_POOL: usize = 256;

/// TRNG error numbers.
#[derive(Clone, Copy, Debug, Eq, PartialEq, Structural)]
pub enum TrngError {
    /// The function is not supported.
    NotSupported,
    /// A parameter is invalid.
    InvalidParams,
    /// No entropy is available.
    NoEntropy,
}

/// The status code of a TRNG error.
pub open spec fn trng_error_code(e: TrngError) -> i32 {
    match e {
        TrngError::NotSupported => -1i32,
        TrngError::InvalidParams => -2i32,
        TrngError::NoEntropy => -3i32,
    }
}

impl TrngError {
    /// Returns the status code of the error.
    pub fn code(self) -> (r: i32)
        ensures
            r == trng_error_code(self),
    {
        match self {
            TrngError::NotSupported => -1,
            TrngError::InvalidParams => -2,
            TrngError::NoEntropy => -3,
        }
    }

    /// Returns the registers that report the error.
    pub fn to_smc_return(self) -> (r: SmcReturn)
        ensures
            r.wf(),
            r@ == seq![i32_reg(trng_error_code(self))],
    {
        SmcReturn::from_i32(self.code())
    }
}

/// Platform-specific TRNG interface.
///
/// The platform must provide an implementation for this trait. A platform without a TRNG source
/// can use `NotSupportedTrngPlatformImpl`.
pub trait TrngPlatformInterface {
    /// The UUID of the entropy source as a little-endian 128-bit value, or 0 (the nil UUID) if
    /// there is no source.
    spec fn spec_trng_uuid() -> u128;

    /// Returns the UUID of the entropy source as a little-endian 128-bit value, or 0 (the nil
    /// UUID) if there is no source.
    fn trng_uuid() -> (r: u128)
        ensures
            r == Self::spec_trng_uuid(),
    ;

    /// Performs any necessary platform-specific setup for the entropy source.
    fn entropy_setup();

    /// Gets `REQ_WORDS` 64-bit values from the platform's entropy source.
    fn get_entropy() -> Result<[u64; 1], TrngError>;
}

/// Default implementation of `TrngPlatformInterface` for platforms that do not have a TRNG source.
pub struct NotSupportedTrngPlatformImpl;

impl TrngPlatformInterface for NotSupportedTrngPlatformImpl {
    open spec fn spec_trng_uuid() -> u128 {
        0
    }

    fn trng_uuid() -> (r: u128) {
        0
    }

    fn entropy_setup() {
    }

    fn get_entropy() -> (r: Result<[u64; 1], TrngError>)
        ensures
            r == Err::<[u64; 1], TrngError>(TrngError::NotSupported),
    {
        Err(TrngError::NotSupported)
    }
}

/// The number of output words needed for `nbits` bits.
pub open spec fn words_for(nbits: int) -> int {
    (nbits + 63) / 64
}

/// The 64 pool bits starting at bit `index + 64 * idx` of the pool `e` (words taken cyclically):
/// the upper part of one word followed by the lower part of the next.
pub open spec fn raw_word(e: Seq<u64>, index: int, idx: int) -> u64 {
    let r = index % 64;
    let w0 = e[(index / 64 + idx) % 4];
    if r == 0 {
        w0
    } else {
        (w0 >> (r as u64)) | (e[(index / 64 + idx + 1) % 4] << ((64 - r) as u64))
    }
}

/// The mask that keeps the requested low bits of the last output word.
pub open spec fn last_word_mask(nbits: int) -> u64 {
    if nbits % 64 != 0 {
        u64::MAX >> ((64 - nbits % 64) as u64)
    } else {
        u64::MAX
    }
}

/// Output word `idx` of a request for `nbits` bits from the pool `e` starting at bit `index`:
/// whole words of pool bits, then the requested low bits of the last word, then zeros.
pub open spec fn packed_word(e: Seq<u64>, index: int, nbits: int, idx: int) -> u64 {
    if idx + 1 < words_for(nbits) {
        raw_word(e, index, idx)
    } else if idx + 1 == words_for(nbits) {
        raw_word(e, index, idx) & last_word_mask(nbits)
    } else {
        0
    }
}

/// Whether the packed words can be stated exactly: the bits of a request come from distinct pool
/// words, or start at a word boundary. This holds of every request of at most
/// `TRNG_RND64_ENTROPY_MAXBITS` bits.
pub open spec fn packing_exact(index: int, nbits: int) -> bool {
    words_for(nbits) < 4 || index % 64 == 0
}

/// Whether filling the pool in whole words until it holds `nbits` bits keeps it within
/// `BITS_IN_POOL` bits.
pub open spec fn fill_fits(size: int, nbits: int) -> bool {
    nbits <= size || nbits <= 256 - (256 - size) % 64
}

/// The number of bits in a pool that held `size` bits once it has been filled, one source word
/// at a time, until it holds at least `nbits` bits.
pub open spec fn filled_size(size: int, nbits: int) -> int {
    if nbits <= size {
        size
    } else {
        size + 64 * ((nbits - size + 63) / 64)
    }
}

/// Entropy pool implemented as a ring buffer of bits, so that requests for arbitrary numbers of
/// bits of entropy can be handled without throwing away the leftover 1-63 bits of entropy.
pub struct EntropyPool {
    entropy: [u64; 4],
    entropy_bit_index: usize,
    entropy_bit_size: usize,
}

impl EntropyPool {
    /// The pool words.
    pub closed spec fn words(&self) -> Seq<u64> {
        self.entropy@
    }

    /// The position of the first valid bit.
    pub closed spec fn bit_index(&self) -> int {
        self.entropy_bit_index as int
    }

    /// The number of valid bits.
    pub closed spec fn bit_size(&self) -> int {
        self.entropy_bit_size as int
    }

    /// The first valid bit lies in the pool and the pool holds at most `BITS_IN_POOL` bits.
    pub open spec fn wf(&self) -> bool {
        &&& 0 <= self.bit_index() < 256
        &&& 0 <= self.bit_size() <= 256
        &&& self.words().len() == 4
    }

    /// Creates an empty pool.
    pub fn new() -> (r: Self)
        ensures
            r.wf(),
            r.bit_index() == 0,
            r.bit_size() == 0,
            r.words() == seq![0u64, 0u64, 0u64, 0u64],
    {
        let r = EntropyPool { entropy: [0u64; 4], entropy_bit_index: 0, entropy_bit_size: 0 };
        assert(r.entropy@ =~= seq![0u64, 0u64, 0u64, 0u64]);
        r
    }

    /// Creates a pool holding the given words, whose `bit_size` valid bits start at `bit_index`.
    pub fn from_parts(entropy: [u64; 4], bit_index: usize, bit_size: usize) -> (r: Self)
        requires
            bit_index < BITS_IN_POOL,
            bit_size <= BITS_IN_POOL,
        ensures
            r.wf(),
            r.words() == entropy@,
            r.bit_index() == bit_index,
            r.bit_size() == bit_size,
    {
        EntropyPool { entropy, entropy_bit_index: bit_index, entropy_bit_size: bit_size }
    }

    /// Returns the position of the first valid bit.
    pub fn entropy_bit_index(&self) -> (r: usize)
        ensures
            r == self.bit_index(),
    {
        self.entropy_bit_index
    }

    /// Returns the number of valid bits.
    pub fn entropy_bit_size(&self) -> (r: usize)
        ensures
            r == self.bit_size(),
    {
        self.entropy_bit_size
    }

    /// Returns the pool words.
    pub fn entropy(&self) -> (r: [u64; 4])
        ensures
            r@ == self.words(),
    {
        self.entropy
    }

    /// Fills the entropy pool until it holds at least `nbits` bits, one request to the platform's
    /// source at a time. Returns an error if the source fails, with the pool holding what it had
    /// received so far.
    pub fn fill_entropy<T: TrngPlatformInterface>(&mut self, nbits: usize) -> (r: Result<(), TrngError>)
        requires
            old(self).wf(),
            nbits <= BITS_IN_POOL,
            fill_fits(old(self).bit_size(), nbits as int),
        ensures
            final(self).wf(),
            final(self).bit_index() == old(self).bit_index(),
            old(self).bit_size() <= final(self).bit_size(),
            fill_fits(final(self).bit_size(), nbits as int),
            r is Ok ==> final(self).bit_size() >= nbits,
            r is Ok ==> final(self).bit_size() == filled_size(old(self).bit_size(), nbits as int),
            r is Err ==> final(self).bit_size() < nbits,
            nbits <= old(self).bit_size() ==> r is Ok && *final(self) == *old(self),
    {
        while nbits > self.entropy_bit_size
            invariant
                self.wf(),
                self.bit_index() == old(self).bit_index(),
                old(self).bit_size() <= self.bit_size(),
                (self.bit_size() - old(self).bit_size()) % 64 == 0,
                self.bit_size() > old(self).bit_size() ==> self.bit_size() - 64 < nbits,
                nbits <= BITS_IN_POOL,
                fill_fits(self.bit_size(), nbits as int),
                nbits <= old(self).bit_size() ==> *self == *old(self),
            decreases 256 - self.entropy_bit_size,
        {
            let buf = match T::get_entropy() {
                Ok(buf) => buf,
                Err(e) => return Err(e),
            };
            let free_bit = self.entropy_bit_size + self.entropy_bit_index;
            let free_word = (free_bit / BITS_PER_WORD) % WORDS_IN_POOL;
            proof {
                lemma_fill_step(self.bit_size(), nbits as int);
            }
            self.entropy[free_word] = buf[0];
            self.entropy_bit_size = self.entropy_bit_size + BITS_PER_WORD;
        }
        proof {
            lemma_filled_size(old(self).bit_size(), self.bit_size(), nbits as int);
        }
        Ok(())
    }

    /// Moves `nbits` bits out of the pool into `out`, from the first valid bit on, and discards
    /// them from the pool. `out` receives whole words of pool bits, then the requested low bits of
    /// the last word, then zeros.
    pub fn extract_entropy(&mut self, nbits: usize, out: &mut [u64])
        requires
            old(self).wf(),
            nbits <= old(self).bit_size(),
            old(out)@.len() >= words_for(nbits as int),
        ensures
            final(self).wf(),
            final(self).bit_index() == (old(self).bit_index() + nbits) % 256,
            final(self).bit_size() == old(self).bit_size() - nbits,
            final(out)@.len() == old(out)@.len(),
            forall|idx: int|
                0 <= idx < final(out)@.len() && words_for(nbits as int) <= idx ==> #[trigger] final(out)@[idx] == 0,
            packing_exact(old(self).bit_index(), nbits as int) ==> forall|idx: int|
                0 <= idx < final(out)@.len() ==> #[trigger] final(out)@[idx] == packed_word(
                    old(self).words(),
                    old(self).bit_index(),
                    nbits as int,
                    idx,
                ),
    {
        let ghost p = self.entropy@;
        let ghost index = self.entropy_bit_index as int;
        let out_len = out.len();
        let mut i: usize = 0;
        while i < out_len
            invariant
                out@.len() == out_len,
                i <= out_len,
                forall|j: int| 0 <= j < i ==> out@[j] == 0,
            decreases out_len - i,
        {
            out[i] = 0;
            i = i + 1;
        }

        let rshift: usize = self.entropy_bit_index % BITS_PER_WORD;
        let lshift: usize = BITS_PER_WORD - rshift;
        let to_fill: usize = (nbits + 63) / BITS_PER_WORD;
        let mut bits_to_discard: usize = nbits;
        let min_word: usize = self.entropy_bit_index / BITS_PER_WORD;
        let mut idx: usize = 0;
        while idx < to_fill
            invariant
                self.wf(),
                self.entropy_bit_index == index,
                self.entropy_bit_size == old(self).bit_size(),
                p.len() == 4,
                0 <= index < 256,
                rshift == index % 64,
                lshift == 64 - rshift,
                min_word == index / 64,
                min_word < 4,
                nbits <= 256,
                to_fill == words_for(nbits as int),
                to_fill <= 4,
                to_fill <= out_len,
                out@.len() == out_len,
                idx <= to_fill,
                bits_to_discard <= nbits,
                forall|j: int| idx <= j < out_len ==> out@[j] == 0,
                packing_exact(index, nbits as int) ==> forall|j: int|
                    0 <= j < idx ==> #[trigger] out@[j] == raw_word(p, index, j),
                forall|j: int|
                    idx < j < 4 ==> self.entropy@[#[trigger] ((min_word + j) % 4)] == p[(min_word + j) % 4],
                idx < 4 ==> self.entropy@[(min_word + idx) % 4] >> (rshift as u64) == p[(min_word
                    + idx) % 4] >> (rshift as u64),
            decreases to_fill - idx,
        {
            let pool_idx0 = (min_word + idx) % WORDS_IN_POOL;
            let r64 = rshift as u64;
            let mut word = self.entropy[pool_idx0] >> r64;
            let ghost pre = self.entropy@;

            if bits_to_discard < BITS_PER_WORD - rshift {
                let s = ((bits_to_discard + rshift) % BITS_PER_WORD) as u64;
                self.entropy[pool_idx0] = self.entropy[pool_idx0] & (u64::MAX << s);
                bits_to_discard = 0;
            } else {
                self.entropy[pool_idx0] = 0;
                bits_to_discard = bits_to_discard - (BITS_PER_WORD - rshift);
            }

            let ghost mid = self.entropy@;
            if lshift != BITS_PER_WORD {
                let pool_idx1 = (min_word + idx + 1) % WORDS_IN_POOL;
                let l64 = lshift as u64;
                word = word | (self.entropy[pool_idx1] << l64);

                let s = if bits_to_discard < BITS_PER_WORD - lshift {
                    let s = (bits_to_discard % BITS_PER_WORD) as u64;
                    bits_to_discard = 0;
                    s
                } else {
                    let s = ((BITS_PER_WORD - lshift) % BITS_PER_WORD) as u64;
                    bits_to_discard = bits_to_discard - (BITS_PER_WORD - lshift);
                    s
                };
                let ghost before = self.entropy@[pool_idx1 as int];
                self.entropy[pool_idx1] = self.entropy[pool_idx1] & (u64::MAX << s);
                proof {
                    lemma_clear_low_bits(before, s, r64);
                }
            }
            out[idx] = word;
            proof {
                let j0: int = idx as int;
                let j1: int = idx as int + 1;
                lemma_identity_ops(p[(min_word + j0) % 4]);
                lemma_identity_ops(pre[(min_word + j0) % 4]);
                if packing_exact(index, nbits as int) {
                    if rshift != 0 {
                        assert(j1 < 4);
                        assert(pre[(min_word + j1) % 4] == p[(min_word + j1) % 4]);
                        assert(mid[(min_word + j1) % 4] == p[(min_word + j1) % 4]);
                    }
                    assert(out@[idx as int] == raw_word(p, index, idx as int));
                }
                assert forall|j: int| idx + 1 < j < 4 implies self.entropy@[#[trigger] ((min_word + j) % 4)] == p[(min_word + j) % 4] by {
                    assert(pre[(min_word + j) % 4] == p[(min_word + j) % 4]);
                }
                if j1 < 4 {
                    assert(pre[(min_word + j1) % 4] == p[(min_word + j1) % 4]);
                    lemma_identity_ops(p[(min_word + j1) % 4]);
                }
            }
            idx = idx + 1;
        }

        if nbits % BITS_PER_WORD != 0 {
            let mask = u64::MAX >> ((BITS_PER_WORD - nbits % BITS_PER_WORD) as u64);
            out[to_fill - 1] = out[to_fill - 1] & mask;
        }
        proof {
            if packing_exact(index, nbits as int) && to_fill > 0 && nbits % 64 == 0 {
                lemma_identity_ops(raw_word(p, index, to_fill - 1));
            }
        }

        self.entropy_bit_index = (self.entropy_bit_index + nbits) % BITS_IN_POOL;
        self.entropy_bit_size = self.entropy_bit_size - nbits;
    }

    /// Packs `nbits` bits of entropy into `out`, filling the entropy pool from the platform's
    /// source as needed. When the pool already holds `nbits` bits, this always succeeds and `out`
    /// receives them as `extract_entropy` describes. When the source fails, the error is returned
    /// and `out` is left unchanged.
    pub fn pack_entropy<T: TrngPlatformInterface>(&mut self, nbits: usize, out: &mut [u64]) -> (r: Result<(), TrngError>)
        requires
            old(self).wf(),
            nbits <= BITS_IN_POOL,
            old(out)@.len() >= words_for(nbits as int),
            fill_fits(old(self).bit_size(), nbits as int),
        ensures
            final(self).wf(),
            r is Err ==> final(out)@ == old(out)@,
            r is Err ==> final(self).bit_index() == old(self).bit_index() && old(self).bit_size()
                <= final(self).bit_size() < nbits,
            r is Ok ==> final(self).bit_size() == filled_size(old(self).bit_size(), nbits as int) - nbits,
            r is Ok ==> final(self).bit_index() == (old(self).bit_index() + nbits) % 256,
            r is Ok ==> final(out)@.len() == old(out)@.len(),
            r is Ok ==> forall|idx: int|
                0 <= idx < final(out)@.len() && words_for(nbits as int) <= idx ==> #[trigger] final(out)@[idx] == 0,
            nbits <= old(self).bit_size() ==> {
                &&& r is Ok
                &&& final(self).bit_size() == old(self).bit_size() - nbits
                &&& packing_exact(old(self).bit_index(), nbits as int) ==> forall|idx: int|
                    0 <= idx < final(out)@.len() ==> #[trigger] final(out)@[idx] == packed_word(
                        old(self).words(),
                        old(self).bit_index(),
                        nbits as int,
                        idx,
                    )
            },
    {
        match self.fill_entropy::<T>(nbits) {
            Ok(()) => {},
            Err(e) => return Err(e),
        }
        self.extract_entropy(nbits, out);
        Ok(())
    }
}

/// Whether the function identifier is one of the TRNG functions.
pub open spec fn spec_is_trng_fid(smc_fid: u32) -> bool {
    smc_fid == ARM_TRNG_VERSION || smc_fid == ARM_TRNG_FEATURES || smc_fid == ARM_TRNG_GET_UUID
        || smc_fid == ARM_TRNG_RND32 || smc_fid == ARM_TRNG_RND64
}

/// Returns whether the function identifier is one of the TRNG functions.
pub fn is_trng_fid(smc_fid: u32) -> (r: bool)
    ensures
        r == spec_is_trng_fid(smc_fid),
{
    smc_fid == ARM_TRNG_VERSION || smc_fid == ARM_TRNG_FEATURES || smc_fid == ARM_TRNG_GET_UUID
        || smc_fid == ARM_TRNG_RND32 || smc_fid == ARM_TRNG_RND64
}

/// The four 32-bit parts of a 128-bit UUID value, least significant first.
pub open spec fn uuid_regs(uuid: u128) -> Seq<u64> {
    seq![
        (uuid & 0xFFFF_FFFF) as u64,
        ((uuid >> 32u128) & 0xFFFF_FFFF) as u64,
        ((uuid >> 64u128) & 0xFFFF_FFFF) as u64,
        ((uuid >> 96u128) & 0xFFFF_FFFF) as u64,
    ]
}

/// Returns the registers that carry a UUID: its four 32-bit parts, least significant first.
pub fn uuid_to_smc_return(uuid: u128) -> (r: SmcReturn)
    ensures
        r.wf(),
        r@ == uuid_regs(uuid),
{
    let regs: [u64; 4] = [
        (uuid & 0xFFFF_FFFF) as u64,
        ((uuid >> 32u128) & 0xFFFF_FFFF) as u64,
        ((uuid >> 64u128) & 0xFFFF_FFFF) as u64,
        ((uuid >> 96u128) & 0xFFFF_FFFF) as u64,
    ];
    let r = SmcReturn::from_slice(&regs);
    assert(regs@ =~= uuid_regs(uuid));
    r
}

/// The registers returned by a successful SMC32 request: the bits in w1-w3, most significant
/// first.
pub open spec fn rnd32_regs(e: Seq<u64>, index: int, nbits: int) -> Seq<u64> {
    let w0 = packed_word(e, index, nbits, 0);
    let w1 = packed_word(e, index, nbits, 1);
    seq![SUCCESS as u64, w1, (w0 >> 32u64) & 0xFFFF_FFFF, w0 & 0xFFFF_FFFF]
}

/// The registers returned by a successful SMC64 request: the bits in x1-x3, most significant
/// first.
pub open spec fn rnd64_regs(e: Seq<u64>, index: int, nbits: int) -> Seq<u64> {
    seq![
        SUCCESS as u64,
        packed_word(e, index, nbits, 2),
        packed_word(e, index, nbits, 1),
        packed_word(e, index, nbits, 0),
    ]
}

/// Whether `r` reports an error of the TRNG interface.
pub open spec fn is_trng_error(r: Seq<u64>) -> bool {
    exists|e: TrngError| r == seq![i32_reg(trng_error_code(e))]
}

/// Generates `nbits` bits of entropy for an SMC32 call, returned in w1-w3.
///
/// Requests of 0 bits or of more than `TRNG_RND32_ENTROPY_MAXBITS` bits are refused with
/// `InvalidParams`. A request that the pool can serve without its source succeeds; otherwise the
/// result is either success or the error of the source.
pub fn trng_rnd32<T: TrngPlatformInterface>(pool: &mut EntropyPool, nbits: usize) -> (r: SmcReturn)
    requires
        old(pool).wf(),
    ensures
        final(pool).wf(),
        r.wf(),
        nbits == 0 || nbits > TRNG_RND32_ENTROPY_MAXBITS ==> {
            &&& r@ == seq![i32_reg(trng_error_code(TrngError::InvalidParams))]
            &&& *final(pool) == *old(pool)
        },
        0 < nbits <= old(pool).bit_size() && nbits <= TRNG_RND32_ENTROPY_MAXBITS ==> {
            &&& r@ == rnd32_regs(old(pool).words(), old(pool).bit_index(), nbits as int)
            &&& final(pool).bit_index() == (old(pool).bit_index() + nbits) % 256
            &&& final(pool).bit_size() == old(pool).bit_size() - nbits
        },
        0 < nbits <= TRNG_RND32_ENTROPY_MAXBITS ==> r@.len() == 4 || is_trng_error(r@),
{
    if nbits == 0 || nbits > TRNG_RND32_ENTROPY_MAXBITS {
        return TrngError::InvalidParams.to_smc_return();
    }

    let mut ent = [0u64; 2];
    match pool.pack_entropy::<T>(nbits, &mut ent) {
        Ok(()) => {},
        Err(e) => return e.to_smc_return(),
    }

    // Return entropy in w1-w3 as per SMC32 definition in TRNG spec.
    let regs: [u64; 4] = [SUCCESS as u64, ent[1], (ent[0] >> 32u64) & 0xFFFF_FFFF, ent[0] & 0xFFFF_FFFF];
    let r = SmcReturn::from_slice(&regs);
    proof {
        if nbits <= old(pool).bit_size() {
            assert(regs@ =~= rnd32_regs(old(pool).words(), old(pool).bit_index(), nbits as int));
        }
    }
    r
}

/// Generates `nbits` bits of entropy for an SMC64 call, returned in x1-x3.
///
/// Requests of 0 bits or of more than `TRNG_RND64_ENTROPY_MAXBITS` bits are refused with
/// `InvalidParams`. A request that the pool can serve without its source succeeds; otherwise the
/// result is either success or the error of the source.
pub fn trng_rnd64<T: TrngPlatformInterface>(pool: &mut EntropyPool, nbits: usize) -> (r: SmcReturn)
    requires
        old(pool).wf(),
    ensures
        final(pool).wf(),
        r.wf(),
        nbits == 0 || nbits > TRNG_RND64_ENTROPY_MAXBITS ==> {
            &&& r@ == seq![i32_reg(trng_error_code(TrngError::InvalidParams))]
            &&& *final(pool) == *old(pool)
        },
        0 < nbits <= old(pool).bit_size() && nbits <= TRNG_RND64_ENTROPY_MAXBITS ==> {
            &&& r@ == rnd64_regs(old(pool).words(), old(pool).bit_index(), nbits as int)
            &&& final(pool).bit_index() == (old(pool).bit_index() + nbits) % 256
            &&& final(pool).bit_size() == old(pool).bit_size() - nbits
        },
        0 < nbits <= TRNG_RND64_ENTROPY_MAXBITS ==> r@.len() == 4 || is_trng_error(r@),
{
    if nbits == 0 || nbits > TRNG_RND64_ENTROPY_MAXBITS {
        return TrngError::InvalidParams.to_smc_return();
    }

    let mut ent = [0u64; 3];
    match pool.pack_entropy::<T>(nbits, &mut ent) {
        Ok(()) => {},
        Err(e) => return e.to_smc_return(),
    }

    // Return entropy in x1-x3 as per SMC64 definition in TRNG spec.
    let regs: [u64; 4] = [SUCCESS as u64, ent[2], ent[1], ent[0]];
    let r = SmcReturn::from_slice(&regs);
    proof {
        if nbits <= old(pool).bit_size() {
            assert(regs@ =~= rnd64_regs(old(pool).words(), old(pool).bit_index(), nbits as int));
        }
    }
    r
}

/// The registers returned for a TRNG call other than a request for entropy, when the platform
/// has an entropy source with the given UUID.
pub open spec fn trng_info_result(function: u32, x1: u64, uuid: u128) -> Seq<u64> {
    if uuid == 0 {
        seq![i32_reg(trng_error_code(TrngError::NotSupported))]
    } else if function == ARM_TRNG_VERSION {
        seq![TRNG_VERSION as u64]
    } else if function == ARM_TRNG_FEATURES {
        if spec_is_trng_fid(x1 as u32) {
            seq![i32_reg(SUCCESS)]
        } else {
            seq![i32_reg(trng_error_code(TrngError::NotSupported))]
        }
    } else if function == ARM_TRNG_GET_UUID {
        uuid_regs(uuid)
    } else {
        seq![i32_reg(trng_error_code(TrngError::NotSupported))]
    }
}

/// Handles a TRNG call, taking entropy from `pool` and the platform `T`.
///
/// Without an entropy source (a nil UUID) every call is answered with `NotSupported` and the pool
/// is left alone; so are unknown functions. Requests for entropy are handled by [`trng_rnd32`]
/// and [`trng_rnd64`].
pub fn handle_smc_common<T: TrngPlatformInterface>(pool: &mut EntropyPool, regs: &[u64; 18]) -> (r: SmcReturn)
    requires
        old(pool).wf(),
    ensures
        final(pool).wf(),
        r.wf(),
        ({
            let function = (regs@[0] as u32) & !SVE_HINT_BIT;
            (T::spec_trng_uuid() == 0 || (function != ARM_TRNG_RND32 && function != ARM_TRNG_RND64))
                ==> r@ == trng_info_result(function, regs@[1], T::spec_trng_uuid()) && *final(pool) == *old(pool)
        }),
{
    let mut function = FunctionId(regs[0] as u32);
    function.clear_sve_hint();
    let x1 = regs[1];
    let uuid = T::trng_uuid();

    if uuid == 0 {
        return TrngError::NotSupported.to_smc_return();
    }

    let f = function.0;
    if f == ARM_TRNG_VERSION {
        SmcReturn::from_u32(TRNG_VERSION)
    } else if f == ARM_TRNG_FEATURES {
        if is_trng_fid(x1 as u32) {
            SmcReturn::from_i32(SUCCESS)
        } else {
            TrngError::NotSupported.to_smc_return()
        }
    } else if f == ARM_TRNG_GET_UUID {
        uuid_to_smc_return(uuid)
    } else if f == ARM_TRNG_RND32 {
        trng_rnd32::<T>(pool, x1 as usize)
    } else if f == ARM_TRNG_RND64 {
        trng_rnd64::<T>(pool, x1 as usize)
    } else {
        TrngError::NotSupported.to_smc_return()
    }
}

/// Clearing bits below `s` does not change the bits from `r` on, when `s <= r`.
proof fn lemma_clear_low_bits(x: u64, s: u64, r: u64)
    requires
        s <= r < 64,
    ensures
        (x & (u64::MAX << s)) >> r == x >> r,
{
    assert((x & (u64::MAX << s)) >> r == x >> r) by (bit_vector)
        requires
            s <= r < 64,
    ;
}

/// Shifting right by zero and masking with all ones keep a word.
proof fn lemma_identity_ops(x: u64)
    ensures
        x >> 0u64 == x,
        x & u64::MAX == x,
{
    assert(x >> 0u64 == x && x & u64::MAX == x) by (bit_vector);
}

/// A pool filled one word at a time from `size` bits until it holds at least `nbits` bits holds
/// `filled_size(size, nbits)` bits.
proof fn lemma_filled_size(size: int, filled: int, nbits: int)
    requires
        0 <= size <= filled,
        (filled - size) % 64 == 0,
        filled > size ==> filled - 64 < nbits,
        nbits <= filled,
    ensures
        filled == filled_size(size, nbits),
{
    if nbits > size {
        let k = (filled - size) / 64;
        assert(filled == size + 64 * k);
        assert((nbits - size + 63) / 64 == k) by (nonlinear_arith)
            requires
                filled == size + 64 * k,
                size + 64 * (k - 1) < nbits,
                nbits <= size + 64 * k,
                nbits > size,
        ;
    }
}

/// One more source word keeps a pool that still needs filling within its capacity.
proof fn lemma_fill_step(size: int, nbits: int)
    requires
        0 <= size <= 256,
        size < nbits <= 256,
        fill_fits(size, nbits),
    ensures
        size + 64 <= 256,
        fill_fits(size + 64, nbits),
{
    assert((256 - size) % 64 < 64);
    assert(256 - size >= 64);
    assert((256 - (size + 64)) % 64 == (256 - size) % 64);
}

} // verus!
