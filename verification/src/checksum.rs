//! The frame checksum, CRC-16/MODBUS, as the `crc` crate computes it.

use vstd::prelude::*;

verus! {

/// The CRC-16/MODBUS checksum of a byte string.
///
/// The value is whatever the `crc` crate computes for the catalogue entry
/// `CRC_16_MODBUS`. Nothing in this crate says what it is on given bytes;
/// contracts that mention it say which bytes were summed and where the sum
/// went.
pub uninterp spec fn crc16_modbus(bytes: Seq<u8>) -> u16;

/// Computes the CRC-16/MODBUS checksum of `bytes`.
///
/// Trusted, not proved: the body builds a `crc::Crc<u16>` for
/// `crc::CRC_16_MODBUS` with `Crc::new` and calls `Crc::checksum` on the
/// bytes. The contract claims only that the result depends on the bytes and
/// on nothing else, which gives it its name.
#[verifier::external_body]
pub(crate) fn checksum(bytes: &[u8]) -> (sum: u16)
    ensures
        sum == crc16_modbus(bytes@),
{
    crc::Crc::<u16>::new(&crc::CRC_16_MODBUS).checksum(bytes)
}

} // verus!
