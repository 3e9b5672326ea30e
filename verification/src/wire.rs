use vstd::prelude::*;

verus! {

/// The eight big-endian bytes of `v`, most significant first.
pub open spec fn u64_be_bytes(v: u64) -> Seq<u8> {
    seq![
        (v >> 56) as u8,
        (v >> 48) as u8,
        (v >> 40) as u8,
        (v >> 32) as u8,
        (v >> 24) as u8,
        (v >> 16) as u8,
        (v >> 8) as u8,
        v as u8,
    ]
}

/// The `u64` whose big-endian bytes are `b[0..8]`.
pub open spec fn u64_from_be(b: Seq<u8>) -> u64
    recommends
        b.len() >= 8,
{
    (b[0] as u64) << 56 | (b[1] as u64) << 48 | (b[2] as u64) << 40 | (b[3] as u64) << 32 | (
    b[4] as u64) << 24 | (b[5] as u64) << 16 | (b[6] as u64) << 8 | (b[7] as u64)
}

/// The four big-endian bytes of `v`, most significant first.
pub open spec fn u32_be_bytes(v: u32) -> Seq<u8> {
    seq![(v >> 24) as u8, (v >> 16) as u8, (v >> 8) as u8, v as u8]
}

/// The `u32` whose big-endian bytes are `b[0..4]`.
pub open spec fn u32_from_be(b: Seq<u8>) -> u32
    recommends
        b.len() >= 4,
{
    (b[0] as u32) << 24 | (b[1] as u32) << 16 | (b[2] as u32) << 8 | (b[3] as u32)
}

/// The four little-endian bytes of `v`, least significant first.
pub open spec fn u32_le_bytes(v: u32) -> Seq<u8> {
    seq![v as u8, (v >> 8) as u8, (v >> 16) as u8, (v >> 24) as u8]
}

/// Reading back the big-endian bytes of a `u64` gives the value itself.
pub proof fn lemma_u64_be_roundtrip(v: u64)
    ensures
        u64_from_be(u64_be_bytes(v)) == v,
{
    let b = u64_be_bytes(v);
    let (b0, b1, b2, b3, b4, b5, b6, b7) = (b[0], b[1], b[2], b[3], b[4], b[5], b[6], b[7]);
    assert(b0 == (v >> 56) as u8 && b1 == (v >> 48) as u8 && b2 == (v >> 40) as u8 && b3 == (v
        >> 32) as u8 && b4 == (v >> 24) as u8 && b5 == (v >> 16) as u8 && b6 == (v >> 8) as u8
        && b7 == v as u8);
    assert((b0 as u64) << 56 | (b1 as u64) << 48 | (b2 as u64) << 40 | (b3 as u64) << 32 | (
    b4 as u64) << 24 | (b5 as u64) << 16 | (b6 as u64) << 8 | (b7 as u64) == v) by (bit_vector)
        requires
            b0 == (v >> 56) as u8,
            b1 == (v >> 48) as u8,
            b2 == (v >> 40) as u8,
            b3 == (v >> 32) as u8,
            b4 == (v >> 24) as u8,
            b5 == (v >> 16) as u8,
            b6 == (v >> 8) as u8,
            b7 == v as u8,
    ;
}

/// Reading back the big-endian bytes of a `u32` gives the value itself.
pub proof fn lemma_u32_be_roundtrip(v: u32)
    ensures
        u32_from_be(u32_be_bytes(v)) == v,
{
    let b = u32_be_bytes(v);
    let (b0, b1, b2, b3) = (b[0], b[1], b[2], b[3]);
    assert(b0 == (v >> 24) as u8 && b1 == (v >> 16) as u8 && b2 == (v >> 8) as u8 && b3
        == v as u8);
    assert((b0 as u32) << 24 | (b1 as u32) << 16 | (b2 as u32) << 8 | (b3 as u32) == v)
        by (bit_vector)
        requires
            b0 == (v >> 24) as u8,
            b1 == (v >> 16) as u8,
            b2 == (v >> 8) as u8,
            b3 == v as u8,
    ;
}

/// Writes the big-endian bytes of `v` into `out[at..at + 8]`.
pub fn write_u64_be(out: &mut [u8; 32], at: usize, v: u64)
    requires
        at + 8 <= 32,
    ensures
        final(out)@ == old(out)@.take(at as int) + u64_be_bytes(v) + old(out)@.skip(at + 8),
{
    out[at] = (v >> 56) as u8;
    out[at + 1] = (v >> 48) as u8;
    out[at + 2] = (v >> 40) as u8;
    out[at + 3] = (v >> 32) as u8;
    out[at + 4] = (v >> 24) as u8;
    out[at + 5] = (v >> 16) as u8;
    out[at + 6] = (v >> 8) as u8;
    out[at + 7] = v as u8;
    assert(out@ =~= old(out)@.take(at as int) + u64_be_bytes(v) + old(out)@.skip(at + 8));
}

/// Writes the big-endian bytes of `v` into `out[at..at + 4]`.
pub fn write_u32_be(out: &mut [u8; 32], at: usize, v: u32)
    requires
        at + 4 <= 32,
    ensures
        final(out)@ == old(out)@.take(at as int) + u32_be_bytes(v) + old(out)@.skip(at + 4),
{
    out[at] = (v >> 24) as u8;
    out[at + 1] = (v >> 16) as u8;
    out[at + 2] = (v >> 8) as u8;
    out[at + 3] = v as u8;
    assert(out@ =~= old(out)@.take(at as int) + u32_be_bytes(v) + old(out)@.skip(at + 4));
}

/// The `u64` stored big-endian in `buf[at..at + 8]`.
pub fn read_u64_be(buf: &[u8; 32], at: usize) -> (v: u64)
    requires
        at + 8 <= 32,
    ensures
        v == u64_from_be(buf@.skip(at as int)),
{
    (buf[at] as u64) << 56 | (buf[at + 1] as u64) << 48 | (buf[at + 2] as u64) << 40 | (buf[at
        + 3] as u64) << 32 | (buf[at + 4] as u64) << 24 | (buf[at + 5] as u64) << 16 | (buf[at
        + 6] as u64) << 8 | (buf[at + 7] as u64)
}

/// The `u32` stored big-endian in `buf[at..at + 4]`.
pub fn read_u32_be(buf: &[u8; 32], at: usize) -> (v: u32)
    requires
        at + 4 <= 32,
    ensures
        v == u32_from_be(buf@.skip(at as int)),
{
    (buf[at] as u32) << 24 | (buf[at + 1] as u32) << 16 | (buf[at + 2] as u32) << 8 | (buf[at
        + 3] as u32)
}

} // verus!
