//! Big-endian integer extraction from byte slices, with explicit
//! length-checked failure, and the matching byte encodings.

use vstd::prelude::*;

use crate::errors::FrameError;

verus! {

/// The big-endian two-byte encoding of a 16-bit integer.
pub open spec fn spec_u16_to_be_bytes(x: u16) -> Seq<u8> {
    seq![((x >> 8) & 0xff) as u8, (x & 0xff) as u8]
}

/// The 16-bit integer read big-endian from the first two bytes of `s`.
pub open spec fn spec_u16_from_be_bytes(s: Seq<u8>) -> u16
    recommends
        s.len() >= 2,
{
    (((s[0] as u16) << 8) | (s[1] as u16)) as u16
}

/// The big-endian four-byte encoding of a 32-bit integer.
pub open spec fn spec_u32_to_be_bytes(x: u32) -> Seq<u8> {
    seq![
        ((x >> 24) & 0xff) as u8,
        ((x >> 16) & 0xff) as u8,
        ((x >> 8) & 0xff) as u8,
        (x & 0xff) as u8,
    ]
}

/// The 32-bit integer read big-endian from the first four bytes of `s`.
pub open spec fn spec_u32_from_be_bytes(s: Seq<u8>) -> u32
    recommends
        s.len() >= 4,
{
    (((s[0] as u32) << 24) | ((s[1] as u32) << 16) | ((s[2] as u32) << 8) | (
    s[3] as u32)) as u32
}

/// Reading back the two bytes of an encoded 16-bit integer yields the
/// integer, and re-encoding a decoded pair of bytes yields the same bytes.
pub proof fn lemma_u16_be_round_trip(x: u16)
    ensures
        spec_u16_to_be_bytes(x).len() == 2,
        spec_u16_from_be_bytes(spec_u16_to_be_bytes(x)) == x,
{
    assert(((((((x >> 8) & 0xff) as u8) as u16) << 8) | (((x & 0xff) as u8) as u16)) as u16
        == x) by (bit_vector);
}

/// Reading back the four bytes of an encoded 32-bit integer yields the
/// integer.
pub proof fn lemma_u32_be_round_trip(x: u32)
    ensures
        spec_u32_to_be_bytes(x).len() == 4,
        spec_u32_from_be_bytes(spec_u32_to_be_bytes(x)) == x,
{
    assert((((((((x >> 24) & 0xff) as u8) as u32) << 24) | (((((x >> 16) & 0xff) as u8) as u32)
        << 16) | (((((x >> 8) & 0xff) as u8) as u32) << 8) | (((x & 0xff) as u8) as u32)) as u32)
        == x) by (bit_vector);
}

/// Big-endian extraction of a 32-bit integer from the head of a slice;
/// fails with `NotEnoughBytes` when fewer than four bytes are available.
pub fn byte_slice_to_u32(bytes: &[u8]) -> (r: Result<u32, FrameError>)
    ensures
        bytes@.len() >= 4 ==> r == Ok::<u32, FrameError>(spec_u32_from_be_bytes(bytes@)),
        bytes@.len() < 4 ==> r == Err::<u32, FrameError>(FrameError::NotEnoughBytes),
{
    if bytes.len() < 4 {
        return Err(FrameError::NotEnoughBytes);
    }
    let b0 = bytes[0];
    let b1 = bytes[1];
    let b2 = bytes[2];
    let b3 = bytes[3];
    Ok(((b0 as u32) << 24) | ((b1 as u32) << 16) | ((b2 as u32) << 8) | (b3 as u32))
}

/// Big-endian extraction of a 16-bit integer from the head of a slice;
/// fails with `NotEnoughBytes` when fewer than two bytes are available.
pub fn byte_slice_to_u16(bytes: &[u8]) -> (r: Result<u16, FrameError>)
    ensures
        bytes@.len() >= 2 ==> r == Ok::<u16, FrameError>(spec_u16_from_be_bytes(bytes@)),
        bytes@.len() < 2 ==> r == Err::<u16, FrameError>(FrameError::NotEnoughBytes),
{
    if bytes.len() < 2 {
        return Err(FrameError::NotEnoughBytes);
    }
    let b0 = bytes[0];
    let b1 = bytes[1];
    Ok(((b0 as u16) << 8) | (b1 as u16))
}

/// The big-endian bytes of a 32-bit integer, most significant first.
pub fn u32_to_be_array(x: u32) -> (r: [u8; 4])
    ensures
        r@ == spec_u32_to_be_bytes(x),
{
    let r = [((x >> 24) & 0xff) as u8, ((x >> 16) & 0xff) as u8, ((x >> 8) & 0xff) as u8, (x
        & 0xff) as u8];
    proof {
        assert(r@ =~= spec_u32_to_be_bytes(x));
    }
    r
}

/// The big-endian bytes of a 16-bit integer, most significant first.
pub fn u16_to_be_array(x: u16) -> (r: [u8; 2])
    ensures
        r@ == spec_u16_to_be_bytes(x),
{
    let r = [((x >> 8) & 0xff) as u8, (x & 0xff) as u8];
    proof {
        assert(r@ =~= spec_u16_to_be_bytes(x));
    }
    r
}

} // verus!
