//! Little-endian encoding of fixed-width integers into byte buffers.
use vstd::prelude::*;

verus! {

/// The sequence `s` with `b` written over it from position `at` on; the
/// length of `s` is kept.
pub open spec fn splice(s: Seq<u8>, at: int, b: Seq<u8>) -> Seq<u8> {
    s.subrange(0, at) + b + s.subrange(at + b.len(), s.len() as int)
}

pub open spec fn u16_le(v: u16) -> Seq<u8> {
    seq![v as u8, (v >> 8u16) as u8]
}

pub open spec fn u32_le(v: u32) -> Seq<u8> {
    seq![v as u8, (v >> 8u32) as u8, (v >> 16u32) as u8, (v >> 24u32) as u8]
}

pub open spec fn u64_le(v: u64) -> Seq<u8> {
    seq![
        v as u8,
        (v >> 8u64) as u8,
        (v >> 16u64) as u8,
        (v >> 24u64) as u8,
        (v >> 32u64) as u8,
        (v >> 40u64) as u8,
        (v >> 48u64) as u8,
        (v >> 56u64) as u8,
    ]
}

/// The little-endian `u16` stored in `b` at `i`.
pub open spec fn u16_at(b: Seq<u8>, i: int) -> u16 {
    (b[i] as u16) | ((b[i + 1] as u16) << 8u16)
}

/// The little-endian `u32` stored in `b` at `i`.
pub open spec fn u32_at(b: Seq<u8>, i: int) -> u32 {
    (b[i] as u32) | ((b[i + 1] as u32) << 8u32) | ((b[i + 2] as u32) << 16u32) | ((b[i + 3] as u32)
        << 24u32)
}

/// The little-endian `u64` stored in `b` at `i`.
pub open spec fn u64_at(b: Seq<u8>, i: int) -> u64 {
    (b[i] as u64) | ((b[i + 1] as u64) << 8u64) | ((b[i + 2] as u64) << 16u64) | ((b[i + 3] as u64)
        << 24u64) | ((b[i + 4] as u64) << 32u64) | ((b[i + 5] as u64) << 40u64) | ((b[i + 6] as u64)
        << 48u64) | ((b[i + 7] as u64) << 56u64)
}

pub proof fn lemma_u16_at(b: Seq<u8>, i: int, v: u16)
    requires
        0 <= i,
        i + 2 <= b.len(),
        b.subrange(i, i + 2) == u16_le(v),
    ensures
        u16_at(b, i) == v,
{
    assert(b[i] == u16_le(v)[0]);
    assert(b[i + 1] == u16_le(v)[1]);
    assert(((v as u8) as u16) | ((((v >> 8u16) as u8) as u16) << 8u16) == v) by (bit_vector);
}

pub proof fn lemma_u32_at(b: Seq<u8>, i: int, v: u32)
    requires
        0 <= i,
        i + 4 <= b.len(),
        b.subrange(i, i + 4) == u32_le(v),
    ensures
        u32_at(b, i) == v,
{
    assert(b[i] == u32_le(v)[0]);
    assert(b[i + 1] == u32_le(v)[1]);
    assert(b[i + 2] == u32_le(v)[2]);
    assert(b[i + 3] == u32_le(v)[3]);
    assert(((v as u8) as u32) | ((((v >> 8u32) as u8) as u32) << 8u32) | ((((v >> 16u32) as u8)
        as u32) << 16u32) | ((((v >> 24u32) as u8) as u32) << 24u32) == v) by (bit_vector);
}

pub proof fn lemma_u64_at(b: Seq<u8>, i: int, v: u64)
    requires
        0 <= i,
        i + 8 <= b.len(),
        b.subrange(i, i + 8) == u64_le(v),
    ensures
        u64_at(b, i) == v,
{
    assert(b[i] == u64_le(v)[0]);
    assert(b[i + 1] == u64_le(v)[1]);
    assert(b[i + 2] == u64_le(v)[2]);
    assert(b[i + 3] == u64_le(v)[3]);
    assert(b[i + 4] == u64_le(v)[4]);
    assert(b[i + 5] == u64_le(v)[5]);
    assert(b[i + 6] == u64_le(v)[6]);
    assert(b[i + 7] == u64_le(v)[7]);
    assert(((v as u8) as u64) | ((((v >> 8u64) as u8) as u64) << 8u64) | ((((v >> 16u64) as u8)
        as u64) << 16u64) | ((((v >> 24u64) as u8) as u64) << 24u64) | ((((v >> 32u64) as u8)
        as u64) << 32u64) | ((((v >> 40u64) as u8) as u64) << 40u64) | ((((v >> 48u64) as u8)
        as u64) << 48u64) | ((((v >> 56u64) as u8) as u64) << 56u64) == v) by (bit_vector);
}

/// Writing `a` and then `b` right after it is writing `a + b`.
pub proof fn lemma_splice_concat(s: Seq<u8>, at: int, a: Seq<u8>, b: Seq<u8>)
    requires
        0 <= at,
        at + a.len() + b.len() <= s.len(),
    ensures
        splice(splice(s, at, a), at + a.len(), b) == splice(s, at, a + b),
{
    assert(splice(splice(s, at, a), at + a.len(), b) =~= splice(s, at, a + b));
}

pub fn put_u16(s: &mut [u8], at: usize, v: u16)
    requires
        at + 2 <= old(s)@.len(),
    ensures
        final(s)@ == splice(old(s)@, at as int, u16_le(v)),
{
    s[at] = v as u8;
    s[at + 1] = (v >> 8u16) as u8;
    assert(s@ =~= splice(old(s)@, at as int, u16_le(v)));
}

pub fn put_u64(s: &mut [u8], at: usize, v: u64)
    requires
        at + 8 <= old(s)@.len(),
    ensures
        final(s)@ == splice(old(s)@, at as int, u64_le(v)),
{
    s[at] = v as u8;
    s[at + 1] = (v >> 8u64) as u8;
    s[at + 2] = (v >> 16u64) as u8;
    s[at + 3] = (v >> 24u64) as u8;
    s[at + 4] = (v >> 32u64) as u8;
    s[at + 5] = (v >> 40u64) as u8;
    s[at + 6] = (v >> 48u64) as u8;
    s[at + 7] = (v >> 56u64) as u8;
    assert(s@ =~= splice(old(s)@, at as int, u64_le(v)));
}

pub fn get_u16(s: &[u8], at: usize) -> (r: u16)
    requires
        at + 2 <= s@.len(),
    ensures
        r == u16_at(s@, at as int),
{
    (s[at] as u16) | ((s[at + 1] as u16) << 8u16)
}

pub fn get_u32(s: &[u8], at: usize) -> (r: u32)
    requires
        at + 4 <= s@.len(),
    ensures
        r == u32_at(s@, at as int),
{
    (s[at] as u32) | ((s[at + 1] as u32) << 8u32) | ((s[at + 2] as u32) << 16u32) | ((s[at + 3]
        as u32) << 24u32)
}

pub fn get_u64(s: &[u8], at: usize) -> (r: u64)
    requires
        at + 8 <= s@.len(),
    ensures
        r == u64_at(s@, at as int),
{
    (s[at] as u64) | ((s[at + 1] as u64) << 8u64) | ((s[at + 2] as u64) << 16u64) | ((s[at + 3]
        as u64) << 24u64) | ((s[at + 4] as u64) << 32u64) | ((s[at + 5] as u64) << 40u64) | ((s[at
        + 6] as u64) << 48u64) | ((s[at + 7] as u64) << 56u64)
}

} // verus!
