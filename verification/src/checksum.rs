//! The frame checksum: CRC-8 with the AUTOSAR parameters.

use vstd::prelude::*;

verus! {

/// The CRC-8/AUTOSAR checksum of a byte sequence, as the `crc` crate computes
/// it.
pub uninterp spec fn crc8_autosar(bytes: Seq<u8>) -> u8;

/// `crc::Crc::<u8>::checksum` with `crc::CRC_8_AUTOSAR`: the checksum of `bytes`,
/// which depends on nothing but the bytes.
#[verifier::external_body]
pub(crate) fn checksum(bytes: &[u8]) -> (crc: u8)
    ensures
        crc == crc8_autosar(bytes@),
{
    crc::Crc::<u8>::new(&crc::CRC_8_AUTOSAR).checksum(bytes)
}

} // verus!
