//! Pseudo-random outcome source: a fixed-seed digest of the participant's
//! identity plus the current coarse timestamp.
//!
//! This source is reproducible by anyone who can predict the timestamp and
//! who controls their own identity; it is deliberately specified here as the
//! ledger's low-assurance entropy, not as a secure one.

use vstd::prelude::*;

verus! {

/// The 64-bit digest that the fixed-seed hash assigns to a 32-byte identity.
pub uninterp spec fn identity_hash(id: Seq<u8>) -> u64;

/// Relies on `std::collections::hash_map::DefaultHasher`: hashers created
/// with `new` all start from the same fixed keys, so the digest is a function
/// of the hashed bytes alone.
#[verifier::external_body]
fn hash_identity(id: &[u8; 32]) -> (r: u64)
    ensures
        r == identity_hash(id@),
{
    let mut hasher = std::collections::hash_map::DefaultHasher::new();
    std::hash::Hasher::write(&mut hasher, id);
    std::hash::Hasher::finish(&hasher)
}

/// The 64-bit entropy value for one wager: the identity digest plus the
/// coarse timestamp, wrapping on overflow.
pub fn get_random(cur_timestamp: u64, ticket_pubkey: [u8; 32]) -> (r: u64)
    ensures
        r == vstd::wrapping::u64_specs::wrapping_add(identity_hash(ticket_pubkey@), cur_timestamp),
{
    let determine_num = hash_identity(&ticket_pubkey).wrapping_add(cur_timestamp);
    determine_num
}

/// The outcome bit of one wager: whether the entropy value for this
/// timestamp and identity is even.
pub open spec fn outcome_bit(cur_timestamp: u64, id: Seq<u8>) -> bool {
    (identity_hash(id) + cur_timestamp) % 2 == 0
}

/// Wrapping the 64-bit entropy sum does not change its parity, so the
/// outcome bit can be read off the executable entropy value.
pub proof fn lemma_entropy_parity(cur_timestamp: u64, id: Seq<u8>)
    ensures
        (vstd::wrapping::u64_specs::wrapping_add(identity_hash(id), cur_timestamp) % 2 == 0)
            == outcome_bit(cur_timestamp, id),
{
}

} // verus!
