//! Dual-endian integer encoding: the format stores each numeric field twice,
//! once little-endian and once big-endian, so that either half alone decodes
//! to the field's value.

use vstd::prelude::*;

verus! {

/// The two bytes of `v` in little-endian order.
pub open spec fn u16_le_bytes(v: u16) -> Seq<u8> {
    seq![(v as int % 0x100) as u8, (v as int / 0x100) as u8]
}

/// The two bytes of `v` in big-endian order.
pub open spec fn u16_be_bytes(v: u16) -> Seq<u8> {
    seq![(v as int / 0x100) as u8, (v as int % 0x100) as u8]
}

/// The four bytes of `v` in little-endian order.
pub open spec fn u32_le_bytes(v: u32) -> Seq<u8> {
    seq![
        (v as int % 0x100) as u8,
        ((v as int / 0x100) % 0x100) as u8,
        ((v as int / 0x10000) % 0x100) as u8,
        (v as int / 0x1000000) as u8,
    ]
}

/// The four bytes of `v` in big-endian order.
pub open spec fn u32_be_bytes(v: u32) -> Seq<u8> {
    seq![
        (v as int / 0x1000000) as u8,
        ((v as int / 0x10000) % 0x100) as u8,
        ((v as int / 0x100) % 0x100) as u8,
        (v as int % 0x100) as u8,
    ]
}

/// The value a two-byte little-endian field decodes to.
pub open spec fn u16_of_le_bytes(s: Seq<u8>) -> int
    recommends
        s.len() == 2,
{
    s[0] + 0x100 * s[1]
}

/// The value a two-byte big-endian field decodes to.
pub open spec fn u16_of_be_bytes(s: Seq<u8>) -> int
    recommends
        s.len() == 2,
{
    0x100 * s[0] + s[1]
}

/// The value a four-byte little-endian field decodes to.
pub open spec fn u32_of_le_bytes(s: Seq<u8>) -> int
    recommends
        s.len() == 4,
{
    s[0] + 0x100 * s[1] + 0x10000 * s[2] + 0x1000000 * s[3]
}

/// The value a four-byte big-endian field decodes to.
pub open spec fn u32_of_be_bytes(s: Seq<u8>) -> int
    recommends
        s.len() == 4,
{
    0x1000000 * s[0] + 0x10000 * s[1] + 0x100 * s[2] + s[3]
}

/// Round trip for 16-bit fields: both halves of a dual-endian encoding of `v`
/// decode back to `v` itself.
pub proof fn lemma_u16_dual_endian_round_trip(v: u16)
    ensures
        u16_of_le_bytes(u16_le_bytes(v)) == v,
        u16_of_be_bytes(u16_be_bytes(v)) == v,
{
}

/// Round trip for 32-bit fields: both halves of a dual-endian encoding of `v`
/// decode back to `v` itself.
pub proof fn lemma_u32_dual_endian_round_trip(v: u32)
    ensures
        u32_of_le_bytes(u32_le_bytes(v)) == v,
        u32_of_be_bytes(u32_be_bytes(v)) == v,
{
}

/// Appends the little-endian bytes of a 16-bit value.
pub fn push_u16_le(out: &mut Vec<u8>, v: u16)
    ensures
        final(out)@ == old(out)@ + u16_le_bytes(v),
{
    out.push((v % 0x100) as u8);
    out.push((v / 0x100) as u8);
    proof {
        assert(out@ =~= old(out)@ + u16_le_bytes(v));
    }
}

/// Appends the big-endian bytes of a 16-bit value.
pub fn push_u16_be(out: &mut Vec<u8>, v: u16)
    ensures
        final(out)@ == old(out)@ + u16_be_bytes(v),
{
    out.push((v / 0x100) as u8);
    out.push((v % 0x100) as u8);
    proof {
        assert(out@ =~= old(out)@ + u16_be_bytes(v));
    }
}

/// Appends the little-endian bytes of a 32-bit value.
pub fn push_u32_le(out: &mut Vec<u8>, v: u32)
    ensures
        final(out)@ == old(out)@ + u32_le_bytes(v),
{
    out.push((v % 0x100) as u8);
    out.push(((v / 0x100) % 0x100) as u8);
    out.push(((v / 0x10000) % 0x100) as u8);
    out.push((v / 0x1000000) as u8);
    proof {
        assert(out@ =~= old(out)@ + u32_le_bytes(v));
    }
}

/// Appends the big-endian bytes of a 32-bit value.
pub fn push_u32_be(out: &mut Vec<u8>, v: u32)
    ensures
        final(out)@ == old(out)@ + u32_be_bytes(v),
{
    out.push((v / 0x1000000) as u8);
    out.push(((v / 0x10000) % 0x100) as u8);
    out.push(((v / 0x100) % 0x100) as u8);
    out.push((v % 0x100) as u8);
    proof {
        assert(out@ =~= old(out)@ + u32_be_bytes(v));
    }
}

/// Reads a 16-bit value back from its little-endian bytes.
pub fn decode_u16_le(bytes: &[u8]) -> (v: u16)
    requires
        bytes@.len() == 2,
    ensures
        v == u16_of_le_bytes(bytes@),
{
    bytes[0] as u16 + 0x100 * bytes[1] as u16
}

/// Reads a 16-bit value back from its big-endian bytes.
pub fn decode_u16_be(bytes: &[u8]) -> (v: u16)
    requires
        bytes@.len() == 2,
    ensures
        v == u16_of_be_bytes(bytes@),
{
    0x100 * bytes[0] as u16 + bytes[1] as u16
}

/// Reads a 32-bit value back from its little-endian bytes.
pub fn decode_u32_le(bytes: &[u8]) -> (v: u32)
    requires
        bytes@.len() == 4,
    ensures
        v == u32_of_le_bytes(bytes@),
{
    bytes[0] as u32 + 0x100 * bytes[1] as u32 + 0x10000 * bytes[2] as u32 + 0x1000000 * bytes[3]
        as u32
}

/// Reads a 32-bit value back from its big-endian bytes.
pub fn decode_u32_be(bytes: &[u8]) -> (v: u32)
    requires
        bytes@.len() == 4,
    ensures
        v == u32_of_be_bytes(bytes@),
{
    0x1000000 * bytes[0] as u32 + 0x10000 * bytes[1] as u32 + 0x100 * bytes[2] as u32 + bytes[3]
        as u32
}

} // verus!
