//! Fixed-width integer reads and writes over byte buffers, the primitive
//! moves of every codec in the crate.

use vstd::prelude::*;

verus! {

/// The 16-bit value stored little-endian at `pos`.
pub open spec fn spec_u16_le(b: Seq<u8>, pos: int) -> int {
    b[pos] + 256 * b[pos + 1]
}

/// The 32-bit value stored little-endian at `pos`.
pub open spec fn spec_u32_le(b: Seq<u8>, pos: int) -> int {
    b[pos] + 256 * b[pos + 1] + 65536 * b[pos + 2] + 16777216 * b[pos + 3]
}

/// The 32-bit value stored big-endian at `pos`.
pub open spec fn spec_u32_be(b: Seq<u8>, pos: int) -> int {
    16777216 * b[pos] + 65536 * b[pos + 1] + 256 * b[pos + 2] + b[pos + 3]
}

/// The 16-bit value stored big-endian at `pos`.
pub open spec fn spec_u16_be(b: Seq<u8>, pos: int) -> int {
    256 * b[pos] + b[pos + 1]
}

/// Read a little-endian 16-bit value.
pub fn read_u16_le(b: &[u8], pos: usize) -> (r: u16)
    requires
        pos + 2 <= b@.len(),
    ensures
        r as int == spec_u16_le(b@, pos as int),
{
    b[pos] as u16 + 256 * (b[pos + 1] as u16)
}

/// Read a little-endian 32-bit value.
pub fn read_u32_le(b: &[u8], pos: usize) -> (r: u32)
    requires
        pos + 4 <= b@.len(),
    ensures
        r as int == spec_u32_le(b@, pos as int),
{
    b[pos] as u32 + 256 * (b[pos + 1] as u32) + 65536 * (b[pos + 2] as u32) + 16777216 * (b[pos
        + 3] as u32)
}

/// Read a big-endian 32-bit value.
pub fn read_u32_be(b: &[u8], pos: usize) -> (r: u32)
    requires
        pos + 4 <= b@.len(),
    ensures
        r as int == spec_u32_be(b@, pos as int),
{
    16777216 * (b[pos] as u32) + 65536 * (b[pos + 1] as u32) + 256 * (b[pos + 2] as u32) + b[pos
        + 3] as u32
}

/// Read a big-endian 16-bit value.
pub fn read_u16_be(b: &[u8], pos: usize) -> (r: u16)
    requires
        pos + 2 <= b@.len(),
    ensures
        r as int == spec_u16_be(b@, pos as int),
{
    256 * (b[pos] as u16) + b[pos + 1] as u16
}

/// The two little-endian bytes of a 16-bit value.
pub open spec fn spec_u16_le_bytes(v: u16) -> Seq<u8> {
    seq![(v as int % 256) as u8, (v as int / 256) as u8]
}

/// The four little-endian bytes of a 32-bit value.
pub open spec fn spec_u32_le_bytes(v: u32) -> Seq<u8> {
    seq![
        (v as int % 256) as u8,
        (v as int / 256 % 256) as u8,
        (v as int / 65536 % 256) as u8,
        (v as int / 16777216) as u8,
    ]
}

/// Append a 16-bit value little-endian.
pub fn push_u16_le(out: &mut Vec<u8>, v: u16)
    ensures
        final (out)@ == old(out)@ + spec_u16_le_bytes(v),
{
    out.push((v % 256) as u8);
    out.push((v / 256) as u8);
    proof {
        assert(final (out)@ =~= old(out)@ + spec_u16_le_bytes(v));
    }
}

/// Append a 32-bit value little-endian.
pub fn push_u32_le(out: &mut Vec<u8>, v: u32)
    ensures
        final (out)@ == old(out)@ + spec_u32_le_bytes(v),
{
    out.push((v % 256) as u8);
    out.push((v / 256 % 256) as u8);
    out.push((v / 65536 % 256) as u8);
    out.push((v / 16777216) as u8);
    proof {
        assert(final (out)@ =~= old(out)@ + spec_u32_le_bytes(v));
    }
}

/// Written little-endian bytes read back as the value that wrote them.
pub proof fn lemma_u16_le_roundtrip(v: u16, b: Seq<u8>, pos: int)
    requires
        0 <= pos,
        pos + 2 <= b.len(),
        b.subrange(pos, pos + 2) == spec_u16_le_bytes(v),
    ensures
        spec_u16_le(b, pos) == v as int,
{
    assert(b[pos] == spec_u16_le_bytes(v)[0]);
    assert(b[pos + 1] == spec_u16_le_bytes(v)[1]);
}

/// Written little-endian bytes read back as the value that wrote them.
pub proof fn lemma_u32_le_roundtrip(v: u32, b: Seq<u8>, pos: int)
    requires
        0 <= pos,
        pos + 4 <= b.len(),
        b.subrange(pos, pos + 4) == spec_u32_le_bytes(v),
    ensures
        spec_u32_le(b, pos) == v as int,
{
    assert(b[pos] == spec_u32_le_bytes(v)[0]);
    assert(b[pos + 1] == spec_u32_le_bytes(v)[1]);
    assert(b[pos + 2] == spec_u32_le_bytes(v)[2]);
    assert(b[pos + 3] == spec_u32_le_bytes(v)[3]);
}

} // verus!
