//! The 8-byte type tags that identify operations and record kinds.
//!
//! Each tag is the first 8 bytes of the keccak digest of a fixed descriptive
//! label, computed the same way for instruction identification and for
//! stored-record identification. The digest itself is the host's keccak
//! primitive; this module only truncates it.
use vstd::prelude::*;

use crate::bytes_util::sub_bytes;

verus! {

/// The keccak-256 digest of a label's UTF-8 bytes. The digest is a function
/// of the label alone: every call on equal labels yields equal bytes.
pub uninterp spec fn keccak_of(label: Seq<char>) -> Seq<u8>;

/// Relies on `solana_program::keccak::hash`: computes the 32-byte keccak-256
/// digest of its input, off-chain via the sha3 crate's `Keccak256`, a pure
/// function of the input bytes.
#[verifier::external_body]
fn keccak256_label(label: &str) -> (r: Vec<u8>)
    ensures
        r@ == keccak_of(label@),
        r@.len() == 32,
{
    solana_program::keccak::hash(label.as_bytes()).to_bytes().to_vec()
}

/// The operation tag of CreatePoll.
pub open spec fn spec_create_poll_tag() -> Seq<u8> {
    keccak_of("instruction:create_voting"@).take(8)
}

/// The operation tag of CastVote.
pub open spec fn spec_cast_vote_tag() -> Seq<u8> {
    keccak_of("instruction:vote"@).take(8)
}

/// The operation tag of UpdateVote.
pub open spec fn spec_update_vote_tag() -> Seq<u8> {
    keccak_of("instruction:update_vote"@).take(8)
}

/// The type tag of a stored poll record.
pub open spec fn spec_poll_record_tag() -> Seq<u8> {
    keccak_of("account:vote"@).take(8)
}

/// The type tag of a stored voter record.
pub open spec fn spec_voter_record_tag() -> Seq<u8> {
    keccak_of("account:user_voting"@).take(8)
}

/// Computes the operation tag of CreatePoll.
pub fn create_poll_tag() -> (r: Vec<u8>)
    ensures
        r@ == spec_create_poll_tag(),
        r@.len() == 8,
{
    let h = keccak256_label("instruction:create_voting");
    sub_bytes(h.as_slice(), 0, 8)
}

/// Computes the operation tag of CastVote.
pub fn cast_vote_tag() -> (r: Vec<u8>)
    ensures
        r@ == spec_cast_vote_tag(),
        r@.len() == 8,
{
    let h = keccak256_label("instruction:vote");
    sub_bytes(h.as_slice(), 0, 8)
}

/// Computes the operation tag of UpdateVote.
pub fn update_vote_tag() -> (r: Vec<u8>)
    ensures
        r@ == spec_update_vote_tag(),
        r@.len() == 8,
{
    let h = keccak256_label("instruction:update_vote");
    sub_bytes(h.as_slice(), 0, 8)
}

/// Computes the type tag of a stored poll record.
pub fn poll_record_tag() -> (r: Vec<u8>)
    ensures
        r@ == spec_poll_record_tag(),
        r@.len() == 8,
{
    let h = keccak256_label("account:vote");
    sub_bytes(h.as_slice(), 0, 8)
}

/// Computes the type tag of a stored voter record.
pub fn voter_record_tag() -> (r: Vec<u8>)
    ensures
        r@ == spec_voter_record_tag(),
        r@.len() == 8,
{
    let h = keccak256_label("account:user_voting");
    sub_bytes(h.as_slice(), 0, 8)
}

} // verus!
