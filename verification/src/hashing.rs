//! Stable 64-bit hashing of byte strings (xxh3), used for advisory-lock ids
//! and response ETags.
use vstd::prelude::*;
use vstd::string::StringSliceAdditionalSpecFns;

verus! {

/// The xxh3 64-bit hash of a byte string, as `xxhash_rust::xxh3::xxh3_64`
/// computes it.
pub uninterp spec fn xxh3_64_of(data: Seq<u8>) -> u64;

/// Calls `xxhash_rust::xxh3::xxh3_64`. Trusted: its result is the named
/// function `xxh3_64_of` of the input bytes, which is all that is claimed
/// (the hash is a pure function of its input; its value is not stated).
#[verifier::external_body]
pub(crate) fn xxh3_64(data: &[u8]) -> (res: u64)
    ensures
        res == xxh3_64_of(data@),
{
    xxhash_rust::xxh3::xxh3_64(data)
}

/// Stable mapping from a cache key to a PostgreSQL advisory-lock id: the
/// xxh3 hash of the key's UTF-8 bytes, its bits read as an `i64`.
pub fn key_to_lock_id(key: &str) -> (res: i64)
    ensures
        res == xxh3_64_of(key.spec_bytes()) as i64,
{
    let h = xxh3_64(key.as_bytes());
    h as i64
}

} // verus!
