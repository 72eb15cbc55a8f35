//! The double-SHA256 hash type of `bitcoin_hashes`, as the library uses it.

use vstd::prelude::*;

verus! {

/// `bitcoin_hashes::sha256d::Hash`: a 32-byte double-SHA256 digest.
#[verifier::external_type_specification]
#[verifier::external_body]
pub struct ExSha256dHash(bitcoin_hashes::sha256d::Hash);

/// `bitcoin_hashes::Error`: the error of building a hash from a slice of the wrong length.
#[verifier::external_type_specification]
#[verifier::external_body]
pub struct ExHashError(bitcoin_hashes::Error);

/// The `sha256d::Hash` that holds exactly the given bytes (what `from_slice` builds
/// from a 32-byte slice: it copies the slice into the hash).
pub uninterp spec fn sha256d_from_bytes(bytes: Seq<u8>) -> bitcoin_hashes::sha256d::Hash;

/// Calls `<sha256d::Hash as bitcoin_hashes::Hash>::from_slice`. Its source returns
/// `Err(InvalidLength)` unless the slice holds 32 bytes, and otherwise a hash that holds
/// a copy of the slice; the contract states both.
#[verifier::external_body]
pub(crate) fn sha256d_from_slice(bytes: &[u8]) -> (r: Result<bitcoin_hashes::sha256d::Hash, bitcoin_hashes::Error>)
    ensures
        r is Ok <==> bytes@.len() == 32,
        r matches Ok(h) ==> h == sha256d_from_bytes(bytes@),
{
    <bitcoin_hashes::sha256d::Hash as bitcoin_hashes::Hash>::from_slice(bytes)
}

} // verus!
