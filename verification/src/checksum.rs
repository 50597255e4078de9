//! The checksum that protects a chunk: CRC-32 with the IEEE 802.3 polynomial.
//!
//! The arithmetic is the `crc` crate's. This module gives its result a name,
//! so that contracts can say which bytes a checksum was taken over and that
//! equal bytes have equal checksums. Nothing here says what the value is for
//! given bytes: whatever depends on the value is decided by functions that
//! take it as an argument.

use vstd::prelude::*;

verus! {

/// The CRC-32/IEEE checksum of `bytes`: what `crc::crc32::checksum_ieee`
/// returns for them.
pub uninterp spec fn crc32_ieee(bytes: Seq<u8>) -> u32;

/// Calls `crc::crc32::checksum_ieee`. That function starts from a fixed
/// register, folds the bytes of the slice into it in order through a constant
/// table, and returns the register's complement; it reads nothing but the
/// slice and has no failing path. Taken on trust, not proved: that its result
/// is the same for the same bytes, which is all that the name claims.
#[verifier::external_body]
pub(crate) fn checksum_ieee(bytes: &[u8]) -> (sum: u32)
    ensures
        sum == crc32_ieee(bytes@),
{
    crc::crc32::checksum_ieee(bytes)
}

} // verus!
