//! The 256-bit BLAKE2b hash that identifies messages.
use vstd::prelude::*;

verus! {

/// The 256-bit BLAKE2b digest of `data` as `sp_io::hashing::blake2_256` computes it.
pub uninterp spec fn blake2_256_of(data: Seq<u8>) -> [u8; 32];

/// Calls `sp_io::hashing::blake2_256`, which hands `data` to the BLAKE2b
/// implementation with a 32-byte output. Claimed: the result is the digest
/// named `blake2_256_of` of the bytes, and nothing else; the digest itself is
/// not stated here.
#[verifier::external_body]
fn blake2_256(data: &[u8]) -> (r: [u8; 32])
    ensures
        r == blake2_256_of(data@),
{
    sp_io::hashing::blake2_256(data)
}

/// Identifier of a message: the BLAKE2b-256 hash of its bytes. The mock
/// runtime's hashing (`BlakeTwo256`) is the same digest, so this is also the
/// hash recorded in the message queue's events.
pub fn message_id(data: &[u8]) -> (r: [u8; 32])
    ensures
        r == blake2_256_of(data@),
{
    blake2_256(data)
}

} // verus!
