//! Identities are UUIDs held as their big-endian 128-bit values; the nil UUID
//! is zero.
use vstd::prelude::*;

verus! {

/// The version field of a UUID (`Uuid::get_version_num`): the high nibble of
/// its seventh byte.
pub open spec fn uuid_version(bits: u128) -> u128 {
    (bits >> 76u128) & 0xfu128
}

/// Whether a UUID is a version-7 (time-ordered) identity.
pub fn uuid_is_v7(bits: u128) -> (res: bool)
    ensures
        res == (uuid_version(bits) == 7),
{
    (bits >> 76u128) & 0xfu128 == 7
}

} // verus!
