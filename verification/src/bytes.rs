//! Byte sequences: prefixes, concatenation and little-endian numbers.

use vstd::prelude::*;

verus! {

/// At most the first `n` bytes of `s`.
pub open spec fn clip(s: Seq<u8>, n: int) -> Seq<u8> {
    if s.len() <= n {
        s
    } else {
        s.take(n)
    }
}

/// The bytes behind an optional slice.
pub open spec fn opt_bytes(data: Option<&[u8]>) -> Option<Seq<u8>> {
    match data {
        Some(d) => Some(d@),
        None => None,
    }
}

/// The bytes behind an optional vector.
pub open spec fn opt_vec(data: Option<Vec<u8>>) -> Option<Seq<u8>> {
    match data {
        Some(d) => Some(d@),
        None => None,
    }
}

/// Appends `src` to `dst`.
pub fn append(dst: &mut Vec<u8>, src: &[u8])
    ensures
        final(dst)@ == old(dst)@ + src@,
{
    let n: usize = src.len();
    for i in 0..n
        invariant
            n == src@.len(),
            dst@ == old(dst)@ + src@.take(i as int),
    {
        dst.push(src[i]);
        assert(src@.take(i + 1) =~= src@.take(i as int).push(src@[i as int]));
    }
    assert(src@.take(n as int) =~= src@);
}

/// A copy of at most the first `n` bytes of `data`.
pub fn clipped(data: &[u8], n: usize) -> (r: Vec<u8>)
    ensures
        r@ == clip(data@, n as int),
{
    let m: usize = if data.len() < n {
        data.len()
    } else {
        n
    };
    let mut r: Vec<u8> = Vec::new();
    for i in 0..m
        invariant
            m <= data@.len(),
            r@ == data@.take(i as int),
    {
        r.push(data[i]);
        assert(data@.take(i + 1) =~= data@.take(i as int).push(data@[i as int]));
    }
    assert(m == data@.len() ==> data@.take(m as int) =~= data@);
    r
}

/// A copy of `data`.
pub fn copied(data: &[u8]) -> (r: Vec<u8>)
    ensures
        r@ == data@,
{
    clipped(data, data.len())
}

/// Whether two byte strings are equal.
pub fn same_bytes(a: &[u8], b: &[u8]) -> (r: bool)
    ensures
        r == (a@ == b@),
{
    if a.len() != b.len() {
        return false;
    }
    let n: usize = a.len();
    for i in 0..n
        invariant
            n == a@.len(),
            n == b@.len(),
            a@.take(i as int) == b@.take(i as int),
    {
        if a[i] != b[i] {
            assert(a@[i as int] != b@[i as int]);
            return false;
        }
        assert(a@.take(i + 1) =~= a@.take(i as int).push(a@[i as int]));
        assert(b@.take(i + 1) =~= b@.take(i as int).push(b@[i as int]));
    }
    assert(a@.take(n as int) =~= a@);
    assert(b@.take(n as int) =~= b@);
    true
}

/// The two bytes of `x`, low byte first.
pub open spec fn le16(x: u16) -> Seq<u8> {
    seq![(x % 256) as u8, (x / 256) as u8]
}

/// The two bytes of `x`, low byte first.
pub fn le16_bytes(x: u16) -> (r: [u8; 2])
    ensures
        r@ == le16(x),
{
    let r: [u8; 2] = [(x % 256) as u8, (x / 256) as u8];
    assert(r@ =~= le16(x));
    r
}

/// The number whose two bytes are `low` and `high`.
pub open spec fn from_le16(low: u8, high: u8) -> u16 {
    (low + 256 * high) as u16
}

/// The number whose two bytes are `low` and `high`.
pub fn u16_from_le(low: u8, high: u8) -> (r: u16)
    ensures
        r == from_le16(low, high),
        r == low + 256 * high,
{
    (low as u16) + 256 * (high as u16)
}

/// The number written by `b`, least significant byte first.
pub open spec fn le_value(b: Seq<u8>) -> int
    decreases b.len(),
{
    if b.len() == 0 {
        0
    } else {
        b[0] + 256 * le_value(b.drop_first())
    }
}

/// The `n` bytes that write `v`, least significant byte first.
pub open spec fn le_bytes(v: int, n: nat) -> Seq<u8>
    decreases n,
{
    if n == 0 {
        Seq::empty()
    } else {
        seq![(v % 256) as u8] + le_bytes(v / 256, (n - 1) as nat)
    }
}

/// Bytes are those that write the number that they write.
pub proof fn lemma_le_bytes_of_value(b: Seq<u8>)
    ensures
        le_bytes(le_value(b), b.len()) == b,
    decreases b.len(),
{
    if b.len() > 0 {
        let rest = b.drop_first();
        lemma_le_bytes_of_value(rest);
        assert(le_value(b) % 256 == b[0]);
        assert(le_value(b) / 256 == le_value(rest));
        assert(b =~= seq![b[0]] + rest);
    }
    assert(le_bytes(le_value(b), b.len()) =~= b);
}

/// Zero is written by zeros.
pub proof fn lemma_le_bytes_zero(n: nat)
    ensures
        le_bytes(0, n) == Seq::new(n, |i: int| 0u8),
    decreases n,
{
    if n > 0 {
        lemma_le_bytes_zero((n - 1) as nat);
    }
    assert(le_bytes(0, n) =~= Seq::new(n, |i: int| 0u8));
}

} // verus!
