//! The operation-specific instruction payloads and their decoding.
//!
//! An instruction's payload follows its 8-byte operation tag and uses the
//! same stable binary layout as the records: little-endian integers, a
//! one-byte boolean, and length-prefixed variable fields. Trailing bytes
//! are ignored.
use vstd::prelude::*;

use crate::bytes_util::sub_bytes;
use crate::records::bool_byte;
use vstd::bytes::{
    lemma_auto_spec_u32_to_from_le_bytes, spec_u32_from_le_bytes, spec_u32_to_le_bytes,
    u32_from_le_bytes,
};
use vstd::slice::{slice_index_get, slice_subrange};

verus! {

/// The fields of a CreatePoll instruction.
#[derive(Debug, Clone, PartialEq, Eq)]
pub struct CreatePollInput {
    /// Opening of the voting window (epoch seconds).
    pub starts_at: u32,
    /// Closing of the voting window (epoch seconds).
    pub ends_at: u32,
    /// Title of the new poll.
    pub title: Vec<u8>,
}

/// The mathematical value of a [`CreatePollInput`].
#[verifier::ext_equal]
pub struct CreatePollModel {
    pub starts_at: u32,
    pub ends_at: u32,
    pub title: Seq<u8>,
}

impl View for CreatePollInput {
    type V = CreatePollModel;

    open spec fn view(&self) -> CreatePollModel {
        (CreatePollModel { starts_at: self.starts_at, ends_at: self.ends_at, title: self.title@ })
    }
}

/// The fields of a CastVote or UpdateVote instruction: the two operations
/// share one shape.
#[derive(Debug, Clone, PartialEq, Eq)]
pub struct VoteInput {
    /// The choice to record.
    pub vote: bool,
    /// Title of the poll voted on.
    pub vote_title: Vec<u8>,
}

/// The mathematical value of a [`VoteInput`].
#[verifier::ext_equal]
pub struct VoteModel {
    pub vote: bool,
    pub vote_title: Seq<u8>,
}

impl View for VoteInput {
    type V = VoteModel;

    open spec fn view(&self) -> VoteModel {
        (VoteModel { vote: self.vote, vote_title: self.vote_title@ })
    }
}

/// What a CreatePoll payload decodes to: two 4-byte timestamps, then the
/// length-prefixed title.
pub open spec fn spec_decode_create(d: Seq<u8>) -> Option<CreatePollModel> {
    if d.len() < 12 {
        None
    } else {
        let tl = spec_u32_from_le_bytes(d.subrange(8, 12)) as int;
        if d.len() < 12 + tl {
            None
        } else {
            Some(
                (CreatePollModel {
                    starts_at: spec_u32_from_le_bytes(d.subrange(0, 4)),
                    ends_at: spec_u32_from_le_bytes(d.subrange(4, 8)),
                    title: d.subrange(12, 12 + tl),
                }),
            )
        }
    }
}

/// What a CastVote or UpdateVote payload decodes to: a one-byte boolean,
/// then the length-prefixed title.
pub open spec fn spec_decode_vote(d: Seq<u8>) -> Option<VoteModel> {
    if d.len() < 5 {
        None
    } else if d[0] != 0 && d[0] != 1 {
        None
    } else {
        let tl = spec_u32_from_le_bytes(d.subrange(1, 5)) as int;
        if d.len() < 5 + tl {
            None
        } else {
            Some((VoteModel { vote: d[0] == 1, vote_title: d.subrange(5, 5 + tl) }))
        }
    }
}

/// The exact bytes a CreatePoll payload is sent as. Clients encode with
/// this; [`spec_decode_create`] inverts it.
pub open spec fn spec_encode_create(m: CreatePollModel) -> Seq<u8> {
    spec_u32_to_le_bytes(m.starts_at) + spec_u32_to_le_bytes(m.ends_at) + spec_u32_to_le_bytes(
        m.title.len() as u32,
    ) + m.title
}

/// The exact bytes a CastVote or UpdateVote payload is sent as.
pub open spec fn spec_encode_vote(m: VoteModel) -> Seq<u8> {
    seq![bool_byte(m.vote)] + spec_u32_to_le_bytes(m.vote_title.len() as u32) + m.vote_title
}

/// Encoding then decoding a CreatePoll payload gives the fields back.
pub proof fn lemma_create_round_trip(m: CreatePollModel)
    requires
        m.title.len() <= u32::MAX,
    ensures
        spec_decode_create(spec_encode_create(m)) == Some(m),
{
    lemma_auto_spec_u32_to_from_le_bytes();
    let e = spec_encode_create(m);
    assert(e.len() == 12 + m.title.len());
    assert(e.subrange(8, 12) =~= spec_u32_to_le_bytes(m.title.len() as u32));
    let tl = spec_u32_from_le_bytes(e.subrange(8, 12)) as int;
    assert(tl == m.title.len());
    assert(e.subrange(0, 4) =~= spec_u32_to_le_bytes(m.starts_at));
    assert(e.subrange(4, 8) =~= spec_u32_to_le_bytes(m.ends_at));
    assert(e.subrange(12, 12 + tl) =~= m.title);
    assert(spec_decode_create(e).unwrap() =~= m);
}

/// Encoding then decoding a CastVote or UpdateVote payload gives the
/// fields back.
pub proof fn lemma_vote_round_trip(m: VoteModel)
    requires
        m.vote_title.len() <= u32::MAX,
    ensures
        spec_decode_vote(spec_encode_vote(m)) == Some(m),
{
    lemma_auto_spec_u32_to_from_le_bytes();
    let e = spec_encode_vote(m);
    assert(e.len() == 5 + m.vote_title.len());
    assert(e[0] == bool_byte(m.vote));
    assert(e.subrange(1, 5) =~= spec_u32_to_le_bytes(m.vote_title.len() as u32));
    let tl = spec_u32_from_le_bytes(e.subrange(1, 5)) as int;
    assert(tl == m.vote_title.len());
    assert(e.subrange(5, 5 + tl) =~= m.vote_title);
    assert(spec_decode_vote(e).unwrap() =~= m);
}

/// Decodes a CreatePoll payload, failing exactly where
/// [`spec_decode_create`] does.
pub fn decode_create(d: &[u8]) -> (r: Option<CreatePollInput>)
    ensures
        match r {
            Some(m) => spec_decode_create(d@) == Some(m@) && m.title@.len() <= u32::MAX,
            None => spec_decode_create(d@) is None,
        },
{
    if d.len() < 12 {
        return None;
    }
    let starts_at = u32_from_le_bytes(slice_subrange(d, 0, 4));
    let ends_at = u32_from_le_bytes(slice_subrange(d, 4, 8));
    let title_len = u32_from_le_bytes(slice_subrange(d, 8, 12)) as usize;
    if d.len() - 12 < title_len {
        return None;
    }
    let title = sub_bytes(d, 12, 12 + title_len);
    Some(CreatePollInput { starts_at, ends_at, title })
}

/// Decodes a CastVote or UpdateVote payload, failing exactly where
/// [`spec_decode_vote`] does.
pub fn decode_vote(d: &[u8]) -> (r: Option<VoteInput>)
    ensures
        match r {
            Some(m) => spec_decode_vote(d@) == Some(m@) && m.vote_title@.len() <= u32::MAX,
            None => spec_decode_vote(d@) is None,
        },
{
    if d.len() < 5 {
        return None;
    }
    let vote_byte = *slice_index_get(d, 0);
    if vote_byte != 0 && vote_byte != 1 {
        return None;
    }
    let title_len = u32_from_le_bytes(slice_subrange(d, 1, 5)) as usize;
    if d.len() - 5 < title_len {
        return None;
    }
    let vote_title = sub_bytes(d, 5, 5 + title_len);
    Some(VoteInput { vote: vote_byte == 1, vote_title })
}

} // verus!
