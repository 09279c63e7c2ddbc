//! Little-endian scalar and fixed-array reads on byte sequences.
use vstd::prelude::*;

verus! {

/// The value of two bytes read as a little-endian `u16`.
pub open spec fn u16_le(b: Seq<u8>) -> u16 {
    (b[0] as u16) | ((b[1] as u16) << 8u16)
}

/// The value of eight bytes read as a little-endian `u64`.
pub open spec fn u64_le(b: Seq<u8>) -> u64 {
    (b[0] as u64) | ((b[1] as u64) << 8u64) | ((b[2] as u64) << 16u64) | ((b[3] as u64) << 24u64)
        | ((b[4] as u64) << 32u64) | ((b[5] as u64) << 40u64) | ((b[6] as u64) << 48u64)
        | ((b[7] as u64) << 56u64)
}

/// The two little-endian bytes of `x`.
pub open spec fn u16_bytes(x: u16) -> Seq<u8> {
    seq![x as u8, (x >> 8u16) as u8]
}

/// The eight little-endian bytes of `x`.
pub open spec fn u64_bytes(x: u64) -> Seq<u8> {
    seq![
        x as u8,
        (x >> 8u64) as u8,
        (x >> 16u64) as u8,
        (x >> 24u64) as u8,
        (x >> 32u64) as u8,
        (x >> 40u64) as u8,
        (x >> 48u64) as u8,
        (x >> 56u64) as u8,
    ]
}

/// The little-endian bytes of each word of `w`, back to back.
pub open spec fn u64s_bytes(w: Seq<u64>) -> Seq<u8>
    decreases w.len(),
{
    if w.len() == 0 {
        Seq::empty()
    } else {
        u64s_bytes(w.drop_last()) + u64_bytes(w.last())
    }
}

/// Every byte of `s` is zero.
pub open spec fn all_zero(s: Seq<u8>) -> bool {
    forall|i: int| 0 <= i < s.len() ==> s[i] == 0
}

/// Every word of `w` is zero.
pub open spec fn all_zero_words(w: Seq<u64>) -> bool {
    forall|i: int| 0 <= i < w.len() ==> w[i] == 0
}

/// The `u64` at byte offset `off` of `s`.
pub open spec fn u64_at(s: Seq<u8>, off: int) -> u64 {
    u64_le(s.subrange(off, off + 8))
}

/// The `n` words that follow each other from byte offset `off` of `s`.
pub open spec fn u64s_at(s: Seq<u8>, off: int, n: int) -> Seq<u64> {
    Seq::new(n as nat, |i: int| u64_at(s, off + 8 * i))
}

pub proof fn lemma_u16_round_trip(x: u16)
    ensures
        u16_le(u16_bytes(x)) == x,
{
    let b0 = x as u8;
    let b1 = (x >> 8u16) as u8;
    assert((b0 as u16) | ((b1 as u16) << 8u16) == x) by (bit_vector)
        requires
            b0 == x as u8,
            b1 == (x >> 8u16) as u8,
    ;
}

pub proof fn lemma_u64_round_trip(x: u64)
    ensures
        u64_le(u64_bytes(x)) == x,
{
    let b = u64_bytes(x);
    let (b0, b1, b2, b3, b4, b5, b6, b7) = (b[0], b[1], b[2], b[3], b[4], b[5], b[6], b[7]);
    assert((b0 as u64) | ((b1 as u64) << 8u64) | ((b2 as u64) << 16u64) | ((b3 as u64) << 24u64)
        | ((b4 as u64) << 32u64) | ((b5 as u64) << 40u64) | ((b6 as u64) << 48u64)
        | ((b7 as u64) << 56u64) == x) by (bit_vector)
        requires
            b0 == x as u8,
            b1 == (x >> 8u64) as u8,
            b2 == (x >> 16u64) as u8,
            b3 == (x >> 24u64) as u8,
            b4 == (x >> 32u64) as u8,
            b5 == (x >> 40u64) as u8,
            b6 == (x >> 48u64) as u8,
            b7 == (x >> 56u64) as u8,
    ;
}

/// Eight bytes that encode `x`, wherever they stand, read back as `x`.
pub proof fn lemma_u64_at(s: Seq<u8>, off: int, x: u64)
    requires
        0 <= off,
        off + 8 <= s.len(),
        s.subrange(off, off + 8) == u64_bytes(x),
    ensures
        u64_at(s, off) == x,
{
    lemma_u64_round_trip(x);
}

/// Where `a + b` stands in `s`, `a` stands first and `b` right after it.
pub proof fn lemma_split(s: Seq<u8>, off: int, a: Seq<u8>, b: Seq<u8>)
    requires
        0 <= off,
        off + a.len() + b.len() <= s.len(),
        s.subrange(off, off + a.len() + b.len()) == a + b,
    ensures
        s.subrange(off, off + a.len()) == a,
        s.subrange(off + a.len(), off + a.len() + b.len()) == b,
{
    assert(s.subrange(off, off + a.len()) =~= a) by {
        assert forall|k: int| 0 <= k < a.len() implies s[off + k] == a[k] by {
            let t = s.subrange(off, off + a.len() + b.len());
            assert(t[k] == s[off + k]);
            assert((a + b)[k] == a[k]);
        }
    }
    assert(s.subrange(off + a.len(), off + a.len() + b.len()) =~= b) by {
        assert forall|k: int| 0 <= k < b.len() implies s[off + a.len() + k] == b[k] by {
            let t = s.subrange(off, off + a.len() + b.len());
            assert(t[a.len() + k] == s[off + a.len() + k]);
            assert((a + b)[a.len() + k] == b[k]);
        }
    }
}

pub proof fn lemma_u64s_bytes_len(w: Seq<u64>)
    ensures
        u64s_bytes(w).len() == 8 * w.len(),
    decreases w.len(),
{
    if w.len() > 0 {
        lemma_u64s_bytes_len(w.drop_last());
    }
}

/// The bytes of a run of words, wherever they stand, read back as those words.
pub proof fn lemma_u64s_at(s: Seq<u8>, off: int, w: Seq<u64>)
    requires
        0 <= off,
        off + 8 * w.len() <= s.len(),
        s.subrange(off, off + 8 * w.len()) == u64s_bytes(w),
    ensures
        u64s_at(s, off, w.len() as int) == w,
    decreases w.len(),
{
    if w.len() > 0 {
        let init = w.drop_last();
        lemma_u64s_bytes_len(init);
        lemma_split(s, off, u64s_bytes(init), u64_bytes(w.last()));
        lemma_u64s_at(s, off, init);
        lemma_u64_at(s, off + 8 * init.len(), w.last());
        assert forall|i: int| 0 <= i < w.len() implies u64s_at(s, off, w.len() as int)[i] == w[i] by {
            if i < init.len() {
                assert(u64s_at(s, off, init.len() as int)[i] == init[i]);
            }
        }
    }
    assert(u64s_at(s, off, w.len() as int) =~= w);
}

/// Every run of bytes inside the first `n` of `a` is the same run of `a`'s
/// first `n` bytes.
pub proof fn lemma_prefix_subranges(a: Seq<u8>, n: int)
    requires
        0 <= n <= a.len(),
    ensures
        forall|i: int, j: int|
            0 <= i <= j <= n ==> #[trigger] a.subrange(i, j) == a.subrange(0, n).subrange(i, j),
{
    assert forall|i: int, j: int| 0 <= i <= j <= n implies #[trigger] a.subrange(i, j)
        == a.subrange(0, n).subrange(i, j) by {
        assert(a.subrange(i, j) =~= a.subrange(0, n).subrange(i, j));
    }
}

/// Reads the little-endian `u16` at `off`.
pub fn read_u16(data: &[u8], off: usize) -> (r: u16)
    requires
        off + 2 <= data@.len(),
    ensures
        r == u16_le(data@.subrange(off as int, off + 2)),
{
    (data[off] as u16) | ((data[off + 1] as u16) << 8u16)
}

/// Reads the little-endian `u64` at `off`.
pub fn read_u64(data: &[u8], off: usize) -> (r: u64)
    requires
        off + 8 <= data@.len(),
    ensures
        r == u64_at(data@, off as int),
{
    (data[off] as u64) | ((data[off + 1] as u64) << 8u64) | ((data[off + 2] as u64) << 16u64)
        | ((data[off + 3] as u64) << 24u64) | ((data[off + 4] as u64) << 32u64)
        | ((data[off + 5] as u64) << 40u64) | ((data[off + 6] as u64) << 48u64)
        | ((data[off + 7] as u64) << 56u64)
}

/// Copies the `N` bytes at `off` into an array.
pub fn read_bytes<const N: usize>(data: &[u8], off: usize) -> (r: [u8; N])
    requires
        off + N <= data.len(),
    ensures
        r@ == data@.subrange(off as int, off + N),
{
    let mut r = [0u8; N];
    let mut i: usize = 0;
    while i < N
        invariant
            off + N <= data.len(),
            i <= N,
            r@.len() == N,
            forall|k: int| 0 <= k < i ==> r@[k] == data@[off + k],
        decreases N - i,
    {
        r.set(i, data[off + i]);
        i = i + 1;
    }
    assert(r@ =~= data@.subrange(off as int, off + N));
    r
}

/// Reads the `N` little-endian words that follow each other from `off`.
pub fn read_u64s<const N: usize>(data: &[u8], off: usize) -> (r: [u64; N])
    requires
        off + 8 * N <= data.len(),
    ensures
        r@ == u64s_at(data@, off as int, N as int),
{
    let mut r = [0u64; N];
    let mut i: usize = 0;
    while i < N
        invariant
            off + 8 * N <= data.len(),
            i <= N,
            r@.len() == N,
            forall|k: int| 0 <= k < i ==> r@[k] == u64_at(data@, off + 8 * k),
        decreases N - i,
    {
        r.set(i, read_u64(data, off + 8 * i));
        i = i + 1;
    }
    assert(r@ =~= u64s_at(data@, off as int, N as int));
    r
}

} // verus!
