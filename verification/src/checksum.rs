//! CRC-16 (MODBUS polynomial) digest computation and verification.
//!
//! Checksums are always computed over a fully-assembled buffer; there is no
//! streaming mode.  The digest itself comes from the `crc` crate and is
//! referred to in contracts through the uninterpreted name [`crc16_of`].

use vstd::prelude::*;

use crate::bytes_be::{spec_u16_to_be_bytes, u16_to_be_array};

verus! {

/// The CRC-16/MODBUS digest of a byte sequence, as the `crc` crate computes
/// it.  The digest is a pure function of the bytes, so the same bytes always
/// name the same digest; nothing more is assumed of its value.
pub uninterp spec fn crc16_of(bytes: Seq<u8>) -> u16;

/// Relies on `crc::Crc::<u16>::checksum` with the `CRC_16_MODBUS` algorithm:
/// the digest depends on the input bytes alone.
#[verifier::external_body]
pub(crate) fn crc16_modbus(bytes: &[u8]) -> (r: u16)
    ensures
        r == crc16_of(bytes@),
{
    crc::Crc::<u16>::new(&crc::CRC_16_MODBUS).checksum(bytes)
}

/// A 16-bit CRC digest carried in the last two bytes of a frame.
///
/// The digest binds the frame's header and command payload; it is never
/// computed over itself.
#[derive(PartialEq, Eq, Structural, Debug, Clone, Copy)]
pub struct Checksum {
    pub checksum: u16,
}

impl Checksum {
    /// The digest value this checksum carries.
    pub open spec fn spec_value(&self) -> u16 {
        self.checksum
    }

    /// Computes the CRC-16/MODBUS digest of `bytes`.
    pub fn from_bytes(bytes: &[u8]) -> (r: Checksum)
        ensures
            r.spec_value() == crc16_of(bytes@),
    {
        Checksum { checksum: crc16_modbus(bytes) }
    }

    /// Wraps an already-computed digest value.
    pub fn from_int(checksum: u16) -> (r: Checksum)
        ensures
            r.spec_value() == checksum,
    {
        Checksum { checksum }
    }

    /// Recomputes the digest of `bytes` and compares it with the carried
    /// value.
    pub fn check(&self, bytes: &[u8]) -> (r: bool)
        ensures
            r == (crc16_of(bytes@) == self.spec_value()),
    {
        crc16_modbus(bytes) == self.checksum
    }

    /// The big-endian wire encoding of the digest.
    pub fn as_bytes(&self) -> (r: [u8; 2])
        ensures
            r@ == spec_u16_to_be_bytes(self.spec_value()),
    {
        u16_to_be_array(self.checksum)
    }
}

} // verus!
