//! Little-endian byte layouts shared by the CAN-FD payload codecs and the
//! flash record format.
use vstd::prelude::*;

verus! {

/// `s` with the two little-endian bytes of `v` written at offset `o`.
pub open spec fn put16(s: Seq<u8>, o: int, v: u16) -> Seq<u8> {
    s.update(o, (v & 0xff) as u8).update(o + 1, ((v >> 8) & 0xff) as u8)
}

/// `s` with the four little-endian bytes of `v` written at offset `o`.
pub open spec fn put32(s: Seq<u8>, o: int, v: u32) -> Seq<u8> {
    s.update(o, (v & 0xff) as u8).update(o + 1, ((v >> 8) & 0xff) as u8).update(
        o + 2,
        ((v >> 16) & 0xff) as u8,
    ).update(o + 3, ((v >> 24) & 0xff) as u8)
}

/// `s` with the eight little-endian bytes of `v` written at offset `o`.
pub open spec fn put64(s: Seq<u8>, o: int, v: u64) -> Seq<u8> {
    s.update(o, (v & 0xff) as u8).update(o + 1, ((v >> 8) & 0xff) as u8).update(
        o + 2,
        ((v >> 16) & 0xff) as u8,
    ).update(o + 3, ((v >> 24) & 0xff) as u8).update(o + 4, ((v >> 32) & 0xff) as u8).update(
        o + 5,
        ((v >> 40) & 0xff) as u8,
    ).update(o + 6, ((v >> 48) & 0xff) as u8).update(o + 7, ((v >> 56) & 0xff) as u8)
}

/// `s` with `bytes` copied in at offset `o`.
pub open spec fn put_bytes(s: Seq<u8>, o: int, bytes: Seq<u8>) -> Seq<u8> {
    s.take(o) + bytes + s.skip(o + bytes.len())
}

/// `n` zero bytes.
pub open spec fn zeros(n: nat) -> Seq<u8> {
    Seq::new(n, |i: int| 0u8)
}

/// The little-endian `u16` at offset `o` of `s`.
pub open spec fn rd16(s: Seq<u8>, o: int) -> u16 {
    (s[o] as u16) | ((s[o + 1] as u16) << 8)
}

/// The little-endian `u32` at offset `o` of `s`.
pub open spec fn rd32(s: Seq<u8>, o: int) -> u32 {
    (s[o] as u32) | ((s[o + 1] as u32) << 8) | ((s[o + 2] as u32) << 16) | ((s[o + 3] as u32)
        << 24)
}

/// The little-endian `u64` at offset `o` of `s`.
pub open spec fn rd64(s: Seq<u8>, o: int) -> u64 {
    (s[o] as u64) | ((s[o + 1] as u64) << 8) | ((s[o + 2] as u64) << 16) | ((s[o + 3] as u64)
        << 24) | ((s[o + 4] as u64) << 32) | ((s[o + 5] as u64) << 40) | ((s[o + 6] as u64) << 48)
        | ((s[o + 7] as u64) << 56)
}

/// The first offset in `start..end` whose byte is not zero.
pub open spec fn first_nonzero(s: Seq<u8>, start: int, end: int) -> Option<int>
    decreases end - start,
{
    if start >= end {
        None
    } else if s[start] != 0 {
        Some(start)
    } else {
        first_nonzero(s, start + 1, end)
    }
}

pub proof fn lemma_u16_bytes(v: u16)
    ensures
        ((((v & 0xff) as u8) as u16) | ((((v >> 8) & 0xff) as u8) as u16) << 8) == v,
{
    assert(((((v & 0xff) as u8) as u16) | ((((v >> 8) & 0xff) as u8) as u16) << 8) == v)
        by (bit_vector);
}

pub proof fn lemma_u32_bytes(v: u32)
    ensures
        ((((v & 0xff) as u8) as u32) | ((((v >> 8) & 0xff) as u8) as u32) << 8 | ((((v >> 16)
            & 0xff) as u8) as u32) << 16 | ((((v >> 24) & 0xff) as u8) as u32) << 24) == v,
{
    assert(((((v & 0xff) as u8) as u32) | ((((v >> 8) & 0xff) as u8) as u32) << 8 | ((((v >> 16)
        & 0xff) as u8) as u32) << 16 | ((((v >> 24) & 0xff) as u8) as u32) << 24) == v)
        by (bit_vector);
}

pub proof fn lemma_u64_bytes(v: u64)
    ensures
        ((((v & 0xff) as u8) as u64) | ((((v >> 8) & 0xff) as u8) as u64) << 8 | ((((v >> 16)
            & 0xff) as u8) as u64) << 16 | ((((v >> 24) & 0xff) as u8) as u64) << 24 | ((((v
            >> 32) & 0xff) as u8) as u64) << 32 | ((((v >> 40) & 0xff) as u8) as u64) << 40
            | ((((v >> 48) & 0xff) as u8) as u64) << 48 | ((((v >> 56) & 0xff) as u8) as u64)
            << 56) == v,
{
    assert(((((v & 0xff) as u8) as u64) | ((((v >> 8) & 0xff) as u8) as u64) << 8 | ((((v >> 16)
        & 0xff) as u8) as u64) << 16 | ((((v >> 24) & 0xff) as u8) as u64) << 24 | ((((v >> 32)
        & 0xff) as u8) as u64) << 32 | ((((v >> 40) & 0xff) as u8) as u64) << 40 | ((((v >> 48)
        & 0xff) as u8) as u64) << 48 | ((((v >> 56) & 0xff) as u8) as u64) << 56) == v)
        by (bit_vector);
}

/// Reading back what `put16` wrote gives the value.
pub proof fn lemma_rd_put16(s: Seq<u8>, o: int, v: u16)
    requires
        0 <= o,
        o + 2 <= s.len(),
    ensures
        rd16(put16(s, o, v), o) == v,
        put16(s, o, v).len() == s.len(),
{
    lemma_u16_bytes(v);
}

/// Reading back what `put32` wrote gives the value.
pub proof fn lemma_rd_put32(s: Seq<u8>, o: int, v: u32)
    requires
        0 <= o,
        o + 4 <= s.len(),
    ensures
        rd32(put32(s, o, v), o) == v,
        put32(s, o, v).len() == s.len(),
{
    lemma_u32_bytes(v);
}

/// Reading back what `put64` wrote gives the value.
pub proof fn lemma_rd_put64(s: Seq<u8>, o: int, v: u64)
    requires
        0 <= o,
        o + 8 <= s.len(),
    ensures
        rd64(put64(s, o, v), o) == v,
        put64(s, o, v).len() == s.len(),
{
    lemma_u64_bytes(v);
}

/// A range of zero bytes has no first non-zero byte.
pub proof fn lemma_first_nonzero_none(s: Seq<u8>, start: int, end: int)
    requires
        0 <= start,
        end <= s.len(),
        forall|i: int| start <= i < end ==> s[i] == 0,
    ensures
        first_nonzero(s, start, end) is None,
    decreases end - start,
{
    if start < end {
        lemma_first_nonzero_none(s, start + 1, end);
    }
}

/// The first non-zero byte is non-zero and every byte before it is zero.
pub proof fn lemma_first_nonzero_some(s: Seq<u8>, start: int, end: int)
    requires
        0 <= start,
        end <= s.len(),
    ensures
        first_nonzero(s, start, end) matches Some(k) ==> start <= k < end && s[k] != 0 && forall|
            i: int,
        | start <= i < k ==> s[i] == 0,
        first_nonzero(s, start, end) is None ==> forall|i: int| start <= i < end ==> s[i] == 0,
    decreases end - start,
{
    if start < end {
        lemma_first_nonzero_some(s, start + 1, end);
    }
}

pub fn put_u16(p: &mut Vec<u8>, o: usize, v: u16)
    requires
        o + 2 <= old(p)@.len(),
    ensures
        final(p)@ == put16(old(p)@, o as int, v),
{
    let _n = p.len();
    p.set(o, (v & 0xff) as u8);
    p.set(o + 1, ((v >> 8) & 0xff) as u8);
}

pub fn put_u32(p: &mut Vec<u8>, o: usize, v: u32)
    requires
        o + 4 <= old(p)@.len(),
    ensures
        final(p)@ == put32(old(p)@, o as int, v),
{
    let _n = p.len();
    p.set(o, (v & 0xff) as u8);
    p.set(o + 1, ((v >> 8) & 0xff) as u8);
    p.set(o + 2, ((v >> 16) & 0xff) as u8);
    p.set(o + 3, ((v >> 24) & 0xff) as u8);
}

pub fn put_u64(p: &mut Vec<u8>, o: usize, v: u64)
    requires
        o + 8 <= old(p)@.len(),
    ensures
        final(p)@ == put64(old(p)@, o as int, v),
{
    let _n = p.len();
    p.set(o, (v & 0xff) as u8);
    p.set(o + 1, ((v >> 8) & 0xff) as u8);
    p.set(o + 2, ((v >> 16) & 0xff) as u8);
    p.set(o + 3, ((v >> 24) & 0xff) as u8);
    p.set(o + 4, ((v >> 32) & 0xff) as u8);
    p.set(o + 5, ((v >> 40) & 0xff) as u8);
    p.set(o + 6, ((v >> 48) & 0xff) as u8);
    p.set(o + 7, ((v >> 56) & 0xff) as u8);
}

pub fn put_slice(p: &mut Vec<u8>, o: usize, bytes: &[u8])
    requires
        o + bytes@.len() <= old(p)@.len(),
    ensures
        final(p)@ == put_bytes(old(p)@, o as int, bytes@),
{
    let ghost start = p@;
    let _n = p.len();
    let mut i: usize = 0;
    while i < bytes.len()
        invariant
            i <= bytes@.len(),
            o + bytes@.len() <= start.len(),
            start.len() <= usize::MAX,
            p@.len() == start.len(),
            forall|j: int| 0 <= j < o ==> p@[j] == start[j],
            forall|j: int| o <= j < o + i ==> p@[j] == bytes@[j - o],
            forall|j: int| o + i <= j < start.len() ==> p@[j] == start[j],
        decreases bytes@.len() - i,
    {
        p.set(o + i, bytes[i]);
        i = i + 1;
    }
    assert(p@ =~= put_bytes(start, o as int, bytes@));
}

pub fn rd_u16(s: &[u8], o: usize) -> (r: u16)
    requires
        o + 2 <= s@.len(),
    ensures
        r == rd16(s@, o as int),
{
    (s[o] as u16) | ((s[o + 1] as u16) << 8)
}

pub fn rd_u32(s: &[u8], o: usize) -> (r: u32)
    requires
        o + 4 <= s@.len(),
    ensures
        r == rd32(s@, o as int),
{
    (s[o] as u32) | ((s[o + 1] as u32) << 8) | ((s[o + 2] as u32) << 16) | ((s[o + 3] as u32)
        << 24)
}

pub fn rd_u64(s: &[u8], o: usize) -> (r: u64)
    requires
        o + 8 <= s@.len(),
    ensures
        r == rd64(s@, o as int),
{
    (s[o] as u64) | ((s[o + 1] as u64) << 8) | ((s[o + 2] as u64) << 16) | ((s[o + 3] as u64)
        << 24) | ((s[o + 4] as u64) << 32) | ((s[o + 5] as u64) << 40) | ((s[o + 6] as u64)
        << 48) | ((s[o + 7] as u64) << 56)
}

/// The first non-zero byte in `start..end`, if any.
pub fn find_nonzero(s: &[u8], start: usize, end: usize) -> (r: Option<usize>)
    requires
        start <= end <= s@.len(),
    ensures
        r matches Some(k) ==> first_nonzero(s@, start as int, end as int) == Some(k as int),
        r is None ==> first_nonzero(s@, start as int, end as int) is None,
{
    let mut i = start;
    while i < end
        invariant
            start <= i <= end <= s@.len(),
            first_nonzero(s@, start as int, end as int) == first_nonzero(s@, i as int, end as int),
        decreases end - i,
    {
        if s[i] != 0 {
            return Some(i);
        }
        i = i + 1;
    }
    None
}

} // verus!
