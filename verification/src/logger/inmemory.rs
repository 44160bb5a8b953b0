//! An in-memory logger with a circular buffer.

use vstd::prelude::*;

verus! {

/// The content of a circular buffer, oldest byte first: the bytes from `offset` to the end,
/// followed by those before `offset`.
pub open spec fn ring_contents(buffer: Seq<u8>, offset: int) -> Seq<u8> {
    buffer.subrange(offset, buffer.len() as int) + buffer.subrange(0, offset)
}

/// The history of writes, kept to its last `len` bytes.
pub open spec fn last_bytes(history: Seq<u8>, len: nat) -> Seq<u8> {
    history.subrange(history.len() - len, history.len() as int)
}

/// An in-memory logger with a circular buffer.
pub struct MemoryLogger {
    buffer: Vec<u8>,
    next_offset: usize,
}

impl MemoryLogger {
    /// The bytes of the circular buffer.
    pub closed spec fn buffer_view(&self) -> Seq<u8> {
        self.buffer@
    }

    /// The offset at which the next byte will be written.
    pub closed spec fn offset(&self) -> nat {
        self.next_offset as nat
    }

    /// The offset lies inside a non-empty buffer, or is 0.
    pub closed spec fn wf(&self) -> bool {
        if self.buffer@.len() == 0 {
            self.next_offset == 0
        } else {
            self.next_offset < self.buffer@.len()
        }
    }

    /// The logged bytes, oldest first, as far as the buffer holds them.
    pub open spec fn contents(&self) -> Seq<u8> {
        ring_contents(self.buffer_view(), self.offset() as int)
    }

    /// Creates a new in-memory logger writing into the given circular buffer, from its start. The
    /// buffer is zeroed out.
    pub fn new(buffer: Vec<u8>) -> (r: Self)
        ensures
            r.wf(),
            r.buffer_view() == Seq::new(buffer@.len(), |i: int| 0u8),
            r.offset() == 0,
    {
        let mut buffer = buffer;
        let ghost len = buffer@.len();
        let mut i: usize = 0;
        while i < buffer.len()
            invariant
                buffer@.len() == len,
                i <= len,
                forall|j: int| 0 <= j < i ==> buffer@[j] == 0u8,
            decreases len - i,
        {
            buffer.set(i, 0u8);
            i = i + 1;
        }
        assert(buffer@ =~= Seq::new(len, |i: int| 0u8));
        MemoryLogger { buffer, next_offset: 0 }
    }

    /// Returns a copy of the circular buffer.
    pub fn buffer(&self) -> (r: Vec<u8>)
        ensures
            r@ == self.buffer_view(),
    {
        self.buffer.clone()
    }

    /// Returns the offset at which the next byte will be written.
    pub fn next_offset(&self) -> (r: usize)
        ensures
            r == self.offset(),
    {
        self.next_offset
    }

    /// Adds the given bytes to the circular buffer.
    ///
    /// If more bytes are passed than can fit in the buffer at once, then the initial bytes are
    /// ignored. Afterwards the buffer holds, oldest first, the last bytes of everything logged so
    /// far followed by `bytes`.
    pub fn add_bytes(&mut self, bytes: &[u8])
        requires
            old(self).wf(),
            old(self).buffer_view().len() > 0,
        ensures
            final(self).wf(),
            final(self).buffer_view().len() == old(self).buffer_view().len(),
            final(self).contents() == last_bytes(
                old(self).contents() + bytes@,
                old(self).buffer_view().len(),
            ),
            final(self).offset() as int == (old(self).offset() + (if bytes@.len() > old(
                self,
            ).buffer_view().len() {
                old(self).buffer_view().len()
            } else {
                bytes@.len()
            })) as int % (old(self).buffer_view().len() as int),
    {
        let len = self.buffer.len();
        let off = self.next_offset;
        // If we are given more bytes than we can fit, keep the end.
        let (start, n) = if bytes.len() > len {
            (bytes.len() - len, len)
        } else {
            (0, bytes.len())
        };
        let ghost old_buf = self.buffer@;
        let bl = bytes.len();
        proof {
            vstd::arithmetic::div_mod::lemma_small_mod(off as nat, len as nat);
        }
        let mut k: usize = 0;
        let mut pos: usize = off;
        while k < n
            invariant
                len == old_buf.len(),
                len > 0,
                off < len,
                n <= len,
                start + n == bl,
                bl == bytes@.len(),
                k <= n,
                pos == (off + k) % (len as int),
                self.buffer@.len() == len,
                forall|i: int|
                    0 <= i < len ==> #[trigger] self.buffer@[i] == if (i - off) % (len as int) < k {
                        bytes@[start + (i - off) % (len as int)]
                    } else {
                        old_buf[i]
                    },
            decreases n - k,
        {
            proof {
                lemma_mod_step(off as int, k as int, len as int);
            }
            self.buffer.set(pos, bytes[start + k]);
            proof {
                assert forall|i: int| 0 <= i < len implies #[trigger] self.buffer@[i] == if (i
                    - off) % (len as int) < k + 1 {
                    bytes@[start + (i - off) % (len as int)]
                } else {
                    old_buf[i]
                } by {
                    lemma_pos_index(off as int, k as int, len as int, i);
                }
            }
            pos = if pos + 1 == len {
                0
            } else {
                pos + 1
            };
            k = k + 1;
        }
        let new_off = if n >= len - off {
            n - (len - off)
        } else {
            off + n
        };
        proof {
            if n >= len - off {
                vstd::arithmetic::div_mod::lemma_mod_add_multiples_vanish(off + n - len, len as int);
                vstd::arithmetic::div_mod::lemma_small_mod((off + n - len) as nat, len as nat);
            } else {
                vstd::arithmetic::div_mod::lemma_small_mod((off + n) as nat, len as nat);
            }
        }
        self.next_offset = new_off;
        proof {
            lemma_ring_law(old_buf, self.buffer@, bytes@, off as int, start as int, n as int);
        }
    }
}

/// Stepping a position of a circular buffer forward by one.
proof fn lemma_mod_step(off: int, k: int, len: int)
    requires
        0 <= off < len,
        0 <= k,
    ensures
        (off + k + 1) % len == if (off + k) % len + 1 == len {
            0
        } else {
            (off + k) % len + 1
        },
{
    let a = (off + k) % len;
    let q = (off + k) / len;
    vstd::arithmetic::div_mod::lemma_fundamental_div_mod(off + k, len);
    vstd::arithmetic::div_mod::lemma_mod_bound(off + k, len);
    if a + 1 == len {
        assert(off + k + 1 == len * (q + 1) + 0) by (nonlinear_arith)
            requires
                off + k == len * q + a,
                a + 1 == len,
        ;
        vstd::arithmetic::div_mod::lemma_mod_multiples_vanish(q + 1, 0, len);
        vstd::arithmetic::div_mod::lemma_small_mod(0, len as nat);
    } else {
        assert(off + k + 1 == len * q + (a + 1));
        vstd::arithmetic::div_mod::lemma_mod_multiples_vanish(q, a + 1, len);
        vstd::arithmetic::div_mod::lemma_small_mod((a + 1) as nat, len as nat);
    }
}

/// The position written at step `k` is the only one whose distance from `off` is `k`.
proof fn lemma_pos_index(off: int, k: int, len: int, i: int)
    requires
        0 <= off < len,
        0 <= k < len,
        0 <= i < len,
    ensures
        (i == (off + k) % len) <==> ((i - off) % len == k),
{
    if i >= off {
        vstd::arithmetic::div_mod::lemma_small_mod((i - off) as nat, len as nat);
        if off + k < len {
            vstd::arithmetic::div_mod::lemma_small_mod((off + k) as nat, len as nat);
        } else {
            vstd::arithmetic::div_mod::lemma_mod_add_multiples_vanish(off + k - len, len);
            vstd::arithmetic::div_mod::lemma_small_mod((off + k - len) as nat, len as nat);
        }
    } else {
        vstd::arithmetic::div_mod::lemma_mod_add_multiples_vanish(i - off, len);
        vstd::arithmetic::div_mod::lemma_small_mod((i - off + len) as nat, len as nat);
        if off + k < len {
            vstd::arithmetic::div_mod::lemma_small_mod((off + k) as nat, len as nat);
        } else {
            vstd::arithmetic::div_mod::lemma_mod_add_multiples_vanish(off + k - len, len);
            vstd::arithmetic::div_mod::lemma_small_mod((off + k - len) as nat, len as nat);
        }
    }
}

/// Writing the last `n` bytes of `bytes` from position `off` leaves, oldest first, the last
/// `len` bytes of the old contents followed by `bytes`.
proof fn lemma_ring_law(old_buf: Seq<u8>, new_buf: Seq<u8>, bytes: Seq<u8>, off: int, start: int, n: int)
    requires
        old_buf.len() > 0,
        new_buf.len() == old_buf.len(),
        0 <= off < old_buf.len(),
        n == if bytes.len() > old_buf.len() { old_buf.len() as int } else { bytes.len() as int },
        start + n == bytes.len(),
        0 <= start,
        forall|i: int|
            0 <= i < old_buf.len() ==> #[trigger] new_buf[i] == if (i - off) % (old_buf.len() as int) < n {
                bytes[start + (i - off) % (old_buf.len() as int)]
            } else {
                old_buf[i]
            },
    ensures
        ring_contents(new_buf, (off + n) % (old_buf.len() as int)) == last_bytes(
            ring_contents(old_buf, off) + bytes,
            old_buf.len(),
        ),
{
    let len = old_buf.len() as int;
    let noff = (off + n) % len;
    let lhs = ring_contents(new_buf, noff);
    let hist = ring_contents(old_buf, off) + bytes;
    let rhs = last_bytes(hist, old_buf.len());
    vstd::arithmetic::div_mod::lemma_mod_bound(off + n, len);
    assert forall|j: int| 0 <= j < len implies #[trigger] lhs[j] == rhs[j] by {
        let bl = bytes.len() as int;
        // Position in the new buffer of the j-th oldest byte.
        let p = (noff + j) % len;
        vstd::arithmetic::div_mod::lemma_mod_bound(noff + j, len);
        lemma_rotation_index(new_buf, noff, j);
        assert(lhs[j] == new_buf[p]);
        vstd::arithmetic::div_mod::lemma_add_mod_noop(off + n, j, len);
        vstd::arithmetic::div_mod::lemma_mod_twice(off + n, len);
        vstd::arithmetic::div_mod::lemma_small_mod(j as nat, len as nat);
        assert(p == (off + n + j) % len) by {
            vstd::arithmetic::div_mod::lemma_add_mod_noop(off + n, j, len);
        }
        // Distance of p from the old offset.
        lemma_distance(off, n + j, len, p);
        let d = (p - off) % len;
        assert(d == (n + j) % len);
        if n + j < len {
            vstd::arithmetic::div_mod::lemma_small_mod((n + j) as nat, len as nat);
            assert(d == n + j);
            assert(new_buf[p] == old_buf[p]);
            // Then bl == n and the byte is an old one.
            assert(bl == n);
            assert(rhs[j] == hist[bl + j]);
            lemma_rotation_index(old_buf, off, n + j);
            assert(hist[bl + j] == ring_contents(old_buf, off)[n + j]);
            assert((off + (n + j)) % len == p);
        } else {
            vstd::arithmetic::div_mod::lemma_mod_add_multiples_vanish(n + j - len, len);
            vstd::arithmetic::div_mod::lemma_small_mod((n + j - len) as nat, len as nat);
            assert(d == n + j - len);
            assert(new_buf[p] == bytes[start + n + j - len]);
            assert(rhs[j] == hist[bl + j]);
            assert(hist[bl + j] == bytes[bl + j - len]);
        }
    }
    assert(lhs =~= rhs);
}

/// The `j`-th element of the rotation of `buf` starting at `off`.
proof fn lemma_rotation_index(buf: Seq<u8>, off: int, j: int)
    requires
        0 <= off < buf.len(),
        0 <= j < buf.len(),
    ensures
        ring_contents(buf, off)[j] == buf[(off + j) % (buf.len() as int)],
{
    let len = buf.len() as int;
    if off + j < len {
        vstd::arithmetic::div_mod::lemma_small_mod((off + j) as nat, len as nat);
    } else {
        vstd::arithmetic::div_mod::lemma_mod_add_multiples_vanish(off + j - len, len);
        vstd::arithmetic::div_mod::lemma_small_mod((off + j - len) as nat, len as nat);
    }
}

/// The distance from `off` to the position `(off + k) % len`.
proof fn lemma_distance(off: int, k: int, len: int, p: int)
    requires
        0 <= off < len,
        0 <= k,
        p == (off + k) % len,
    ensures
        (p - off) % len == k % len,
{
    vstd::arithmetic::div_mod::lemma_mod_bound(off + k, len);
    let q = (off + k) / len;
    vstd::arithmetic::div_mod::lemma_fundamental_div_mod(off + k, len);
    assert(p - off == len * (-q) + k) by (nonlinear_arith)
        requires
            p == (off + k) % len,
            off + k == len * q + (off + k) % len,
    ;
    vstd::arithmetic::div_mod::lemma_mod_multiples_vanish(-q, k, len);
}

} // verus!
