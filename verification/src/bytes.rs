//! Big-endian encoding of the unsigned integers that the v1 formats store.
use vstd::prelude::*;

verus! {

/// The two big-endian bytes of `x`.
pub open spec fn be_u16(x: u16) -> Seq<u8> {
    seq![(x >> 8u16) as u8, x as u8]
}

/// The eight big-endian bytes of `x`.
pub open spec fn be_u64(x: u64) -> Seq<u8> {
    seq![
        (x >> 56u64) as u8,
        (x >> 48u64) as u8,
        (x >> 40u64) as u8,
        (x >> 32u64) as u8,
        (x >> 24u64) as u8,
        (x >> 16u64) as u8,
        (x >> 8u64) as u8,
        x as u8,
    ]
}

/// The integer whose big-endian bytes are `b0, b1`.
pub open spec fn u16_from_be(b0: u8, b1: u8) -> u16 {
    ((b0 as u16) << 8u16) | (b1 as u16)
}

/// The integer whose big-endian bytes are `b0 .. b7`.
pub open spec fn u64_from_be(b0: u8, b1: u8, b2: u8, b3: u8, b4: u8, b5: u8, b6: u8, b7: u8) -> u64 {
    ((b0 as u64) << 56u64) | ((b1 as u64) << 48u64) | ((b2 as u64) << 40u64) | ((b3 as u64) << 32u64)
        | ((b4 as u64) << 24u64) | ((b5 as u64) << 16u64) | ((b6 as u64) << 8u64) | (b7 as u64)
}

/// The integer stored big-endian in the first two bytes of `s`.
pub open spec fn read_be_u16(s: Seq<u8>) -> u16 {
    u16_from_be(s[0], s[1])
}

/// The integer stored big-endian in the first eight bytes of `s`.
pub open spec fn read_be_u64(s: Seq<u8>) -> u64 {
    u64_from_be(s[0], s[1], s[2], s[3], s[4], s[5], s[6], s[7])
}

/// Reading back the two bytes written for `x` gives `x`.
pub proof fn lemma_be_u16_round_trip(x: u16)
    ensures
        be_u16(x).len() == 2,
        read_be_u16(be_u16(x)) == x,
{
    let b = be_u16(x);
    assert(b[0] == (x >> 8u16) as u8);
    assert(b[1] == x as u8);
    assert(((((x >> 8u16) as u8) as u16) << 8u16) | ((x as u8) as u16) == x) by (bit_vector);
}

/// Reading back the eight bytes written for `x` gives `x`.
pub proof fn lemma_be_u64_round_trip(x: u64)
    ensures
        be_u64(x).len() == 8,
        read_be_u64(be_u64(x)) == x,
{
    let b = be_u64(x);
    assert(b[0] == (x >> 56u64) as u8);
    assert(b[1] == (x >> 48u64) as u8);
    assert(b[2] == (x >> 40u64) as u8);
    assert(b[3] == (x >> 32u64) as u8);
    assert(b[4] == (x >> 24u64) as u8);
    assert(b[5] == (x >> 16u64) as u8);
    assert(b[6] == (x >> 8u64) as u8);
    assert(b[7] == x as u8);
    assert(u64_from_be(
        (x >> 56u64) as u8,
        (x >> 48u64) as u8,
        (x >> 40u64) as u8,
        (x >> 32u64) as u8,
        (x >> 24u64) as u8,
        (x >> 16u64) as u8,
        (x >> 8u64) as u8,
        x as u8,
    ) == x) by (bit_vector);
}

/// Appends the two big-endian bytes of `x`.
pub fn push_be_u16(out: &mut Vec<u8>, x: u16)
    ensures
        final(out)@ == old(out)@ + be_u16(x),
{
    out.push((x >> 8) as u8);
    out.push(x as u8);
    assert(final(out)@ =~= old(out)@ + be_u16(x));
}

/// Appends the eight big-endian bytes of `x`.
pub fn push_be_u64(out: &mut Vec<u8>, x: u64)
    ensures
        final(out)@ == old(out)@ + be_u64(x),
{
    out.push((x >> 56) as u8);
    out.push((x >> 48) as u8);
    out.push((x >> 40) as u8);
    out.push((x >> 32) as u8);
    out.push((x >> 24) as u8);
    out.push((x >> 16) as u8);
    out.push((x >> 8) as u8);
    out.push(x as u8);
    assert(final(out)@ =~= old(out)@ + be_u64(x));
}

/// The integer stored big-endian at `s[start..start + 2]`.
pub fn get_be_u16(s: &[u8], start: usize) -> (r: u16)
    requires
        start + 2 <= s@.len(),
    ensures
        r == read_be_u16(s@.subrange(start as int, start + 2)),
{
    ((s[start] as u16) << 8) | (s[start + 1] as u16)
}

/// The integer stored big-endian at `s[start..start + 8]`.
pub fn get_be_u64(s: &[u8], start: usize) -> (r: u64)
    requires
        start + 8 <= s@.len(),
    ensures
        r == read_be_u64(s@.subrange(start as int, start + 8)),
{
    ((s[start] as u64) << 56) | ((s[start + 1] as u64) << 48) | ((s[start + 2] as u64) << 40)
        | ((s[start + 3] as u64) << 32) | ((s[start + 4] as u64) << 24) | ((s[start + 5] as u64)
        << 16) | ((s[start + 6] as u64) << 8) | (s[start + 7] as u64)
}

} // verus!
