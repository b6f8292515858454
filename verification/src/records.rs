//! The two persisted record kinds and their fixed-layout binary codec.
//!
//! Both kinds begin with an 8-byte type tag. Multi-byte integers are stored
//! little-endian; a variable-length field is stored as a 4-byte little-endian
//! length prefix followed by that many bytes. Decoding ignores any bytes that
//! trail the encoded record, so a record read back from a fixed-width
//! allocation decodes no matter how much zero padding follows it.
use vstd::prelude::*;

use crate::bytes_util::{extend_bytes, sub_bytes};
use vstd::bytes::{
    lemma_auto_spec_u32_to_from_le_bytes, spec_u32_from_le_bytes, spec_u32_to_le_bytes,
    u32_from_le_bytes, u32_to_le_bytes,
};
use vstd::slice::slice_subrange;

verus! {

/// Width of a record's leading type tag.
pub const TYPE_TAG_LEN: usize = 8;

/// Width of an identity (a key of the external store).
pub const IDENTITY_LEN: usize = 32;

/// Maximum stored width of a title's content.
pub const MAX_TITLE_LEN: usize = 50;

/// Byte offset of a poll record's title content; also the least width a
/// decodable poll record can have.
pub const POLL_FIXED_LEN: usize = 8 + 32 + 4 + 4 + 4;

/// Byte offset of a voter record's title content; also the least width a
/// decodable voter record can have.
pub const VOTER_FIXED_LEN: usize = 8 + 4 + 1 + 4;

/// Fixed allocation width of a poll record.
pub const POLL_RECORD_SPACE: u64 = 8 + 32 + 4 + 4 + 4 + 50;

/// Fixed allocation width of a voter record.
pub const VOTER_RECORD_SPACE: u64 = 8 + 4 + 1 + 4 + 50;

/// One voting topic, as persisted.
#[derive(Debug, Clone, PartialEq, Eq)]
pub struct PollRecord {
    /// Leading type tag marking this as a poll record.
    pub discriminator: Vec<u8>,
    /// Identity of the account that created the poll.
    pub creator: Vec<u8>,
    /// Opening of the voting window (epoch seconds).
    pub starts_at: u32,
    /// Closing of the voting window (epoch seconds).
    pub ends_at: u32,
    /// The poll's title; its de facto unique key.
    pub title: Vec<u8>,
}

/// The mathematical value of a [`PollRecord`].
#[verifier::ext_equal]
pub struct PollModel {
    pub tag: Seq<u8>,
    pub creator: Seq<u8>,
    pub starts_at: u32,
    pub ends_at: u32,
    pub title: Seq<u8>,
}

impl View for PollRecord {
    type V = PollModel;

    open spec fn view(&self) -> PollModel {
        (PollModel {
            tag: self.discriminator@,
            creator: self.creator@,
            starts_at: self.starts_at,
            ends_at: self.ends_at,
            title: self.title@,
        })
    }
}

/// One voter's state for one poll, as persisted.
#[derive(Debug, Clone, PartialEq, Eq)]
pub struct VoterRecord {
    /// Leading type tag marking this as a voter record.
    pub discriminator: Vec<u8>,
    /// Time of the most recent write (epoch seconds).
    pub last_time_voted: u32,
    /// The recorded choice.
    pub vote_status: bool,
    /// Title of the poll this record refers to.
    pub voted_to: Vec<u8>,
}

/// The mathematical value of a [`VoterRecord`].
#[verifier::ext_equal]
pub struct VoterModel {
    pub tag: Seq<u8>,
    pub last_time_voted: u32,
    pub vote_status: bool,
    pub voted_to: Seq<u8>,
}

impl View for VoterRecord {
    type V = VoterModel;

    open spec fn view(&self) -> VoterModel {
        (VoterModel {
            tag: self.discriminator@,
            last_time_voted: self.last_time_voted,
            vote_status: self.vote_status,
            voted_to: self.voted_to@,
        })
    }
}

/// Structural well-formedness of a poll record: the fixed-width fields have
/// their widths and the title fits its stored field.
pub open spec fn poll_wf(p: PollModel) -> bool {
    &&& p.tag.len() == TYPE_TAG_LEN
    &&& p.creator.len() == IDENTITY_LEN
    &&& p.title.len() <= MAX_TITLE_LEN
}

/// Structural well-formedness of a voter record.
pub open spec fn voter_wf(v: VoterModel) -> bool {
    &&& v.tag.len() == TYPE_TAG_LEN
    &&& v.voted_to.len() <= MAX_TITLE_LEN
}

/// The exact bytes a poll record is stored as.
pub open spec fn spec_encode_poll(p: PollModel) -> Seq<u8> {
    p.tag + p.creator + spec_u32_to_le_bytes(p.starts_at) + spec_u32_to_le_bytes(p.ends_at)
        + spec_u32_to_le_bytes(p.title.len() as u32) + p.title
}

/// The exact bytes a voter record is stored as. The choice is stored as one
/// byte, `1` for `true` and `0` for `false`.
pub open spec fn spec_encode_voter(v: VoterModel) -> Seq<u8> {
    v.tag + spec_u32_to_le_bytes(v.last_time_voted) + seq![bool_byte(v.vote_status)]
        + spec_u32_to_le_bytes(v.voted_to.len() as u32) + v.voted_to
}

/// The stored form of a boolean.
pub open spec fn bool_byte(b: bool) -> u8 {
    if b {
        1
    } else {
        0
    }
}

/// What a poll record's bytes decode to: `None` when the buffer is shorter
/// than the fixed layout or than its own title length claims.
pub open spec fn spec_decode_poll(d: Seq<u8>) -> Option<PollModel> {
    if d.len() < POLL_FIXED_LEN {
        None
    } else {
        let tl = spec_u32_from_le_bytes(d.subrange(48, 52)) as int;
        if d.len() < POLL_FIXED_LEN + tl {
            None
        } else {
            Some(
                (PollModel {
                    tag: d.subrange(0, 8),
                    creator: d.subrange(8, 40),
                    starts_at: spec_u32_from_le_bytes(d.subrange(40, 44)),
                    ends_at: spec_u32_from_le_bytes(d.subrange(44, 48)),
                    title: d.subrange(52, 52 + tl),
                }),
            )
        }
    }
}

/// What a voter record's bytes decode to: `None` when the buffer is too
/// short or the stored boolean byte is neither `0` nor `1`.
pub open spec fn spec_decode_voter(d: Seq<u8>) -> Option<VoterModel> {
    if d.len() < VOTER_FIXED_LEN {
        None
    } else if d[12] != 0 && d[12] != 1 {
        None
    } else {
        let tl = spec_u32_from_le_bytes(d.subrange(13, 17)) as int;
        if d.len() < VOTER_FIXED_LEN + tl {
            None
        } else {
            Some(
                (VoterModel {
                    tag: d.subrange(0, 8),
                    last_time_voted: spec_u32_from_le_bytes(d.subrange(8, 12)),
                    vote_status: d[12] == 1,
                    voted_to: d.subrange(17, 17 + tl),
                }),
            )
        }
    }
}

/// Encoding then decoding a poll record gives the record back: the codec
/// loses nothing, for every record whose title length fits its 4-byte
/// prefix.
pub proof fn lemma_poll_round_trip(p: PollModel)
    requires
        p.tag.len() == TYPE_TAG_LEN,
        p.creator.len() == IDENTITY_LEN,
        p.title.len() <= u32::MAX,
    ensures
        spec_decode_poll(spec_encode_poll(p)) == Some(p),
{
    lemma_auto_spec_u32_to_from_le_bytes();
    let e = spec_encode_poll(p);
    assert(e.len() == 52 + p.title.len());
    assert(e.subrange(48, 52) =~= spec_u32_to_le_bytes(p.title.len() as u32));
    let tl = spec_u32_from_le_bytes(e.subrange(48, 52)) as int;
    assert(tl == p.title.len());
    assert(e.subrange(0, 8) =~= p.tag);
    assert(e.subrange(8, 40) =~= p.creator);
    assert(e.subrange(40, 44) =~= spec_u32_to_le_bytes(p.starts_at));
    assert(e.subrange(44, 48) =~= spec_u32_to_le_bytes(p.ends_at));
    assert(e.subrange(52, 52 + tl) =~= p.title);
    assert(spec_decode_poll(e).unwrap() =~= p);
}

/// Encoding then decoding a voter record gives the record back.
pub proof fn lemma_voter_round_trip(v: VoterModel)
    requires
        v.tag.len() == TYPE_TAG_LEN,
        v.voted_to.len() <= u32::MAX,
    ensures
        spec_decode_voter(spec_encode_voter(v)) == Some(v),
{
    lemma_auto_spec_u32_to_from_le_bytes();
    let e = spec_encode_voter(v);
    assert(e.len() == 17 + v.voted_to.len());
    assert(e[12] == bool_byte(v.vote_status));
    assert(e.subrange(13, 17) =~= spec_u32_to_le_bytes(v.voted_to.len() as u32));
    let tl = spec_u32_from_le_bytes(e.subrange(13, 17)) as int;
    assert(tl == v.voted_to.len());
    assert(e.subrange(0, 8) =~= v.tag);
    assert(e.subrange(8, 12) =~= spec_u32_to_le_bytes(v.last_time_voted));
    assert(e.subrange(17, 17 + tl) =~= v.voted_to);
    assert(spec_decode_voter(e).unwrap() =~= v);
}

/// Encodes a poll record into its exact stored bytes.
pub fn encode_poll(r: &PollRecord) -> (out: Vec<u8>)
    requires
        r.title@.len() <= u32::MAX,
    ensures
        out@ == spec_encode_poll(r@),
{
    let mut out: Vec<u8> = Vec::new();
    extend_bytes(&mut out, r.discriminator.as_slice());
    extend_bytes(&mut out, r.creator.as_slice());
    let sa = u32_to_le_bytes(r.starts_at);
    extend_bytes(&mut out, sa.as_slice());
    let ea = u32_to_le_bytes(r.ends_at);
    extend_bytes(&mut out, ea.as_slice());
    let ln = u32_to_le_bytes(r.title.len() as u32);
    extend_bytes(&mut out, ln.as_slice());
    extend_bytes(&mut out, r.title.as_slice());
    proof {
        assert(out@ =~= spec_encode_poll(r@));
    }
    out
}

/// Encodes a voter record into its exact stored bytes.
pub fn encode_voter(r: &VoterRecord) -> (out: Vec<u8>)
    requires
        r.voted_to@.len() <= u32::MAX,
    ensures
        out@ == spec_encode_voter(r@),
{
    let mut out: Vec<u8> = Vec::new();
    extend_bytes(&mut out, r.discriminator.as_slice());
    let lt = u32_to_le_bytes(r.last_time_voted);
    extend_bytes(&mut out, lt.as_slice());
    if r.vote_status {
        out.push(1);
    } else {
        out.push(0);
    }
    let ln = u32_to_le_bytes(r.voted_to.len() as u32);
    extend_bytes(&mut out, ln.as_slice());
    extend_bytes(&mut out, r.voted_to.as_slice());
    proof {
        assert(out@ =~= spec_encode_voter(r@));
    }
    out
}

/// Decodes a poll record, failing exactly where [`spec_decode_poll`] does.
pub fn decode_poll(d: &[u8]) -> (r: Option<PollRecord>)
    ensures
        match r {
            Some(p) => spec_decode_poll(d@) == Some(p@) && p.title@.len() <= u32::MAX,
            None => spec_decode_poll(d@) is None,
        },
{
    if d.len() < POLL_FIXED_LEN {
        return None;
    }
    let discriminator = sub_bytes(d, 0, 8);
    let creator = sub_bytes(d, 8, 40);
    let starts_at = u32_from_le_bytes(slice_subrange(d, 40, 44));
    let ends_at = u32_from_le_bytes(slice_subrange(d, 44, 48));
    let title_len = u32_from_le_bytes(slice_subrange(d, 48, 52)) as usize;
    if d.len() - POLL_FIXED_LEN < title_len {
        return None;
    }
    let title = sub_bytes(d, 52, 52 + title_len);
    Some(PollRecord { discriminator, creator, starts_at, ends_at, title })
}

/// Decodes a voter record, failing exactly where [`spec_decode_voter`] does.
pub fn decode_voter(d: &[u8]) -> (r: Option<VoterRecord>)
    ensures
        match r {
            Some(v) => spec_decode_voter(d@) == Some(v@) && v.voted_to@.len() <= u32::MAX,
            None => spec_decode_voter(d@) is None,
        },
{
    if d.len() < VOTER_FIXED_LEN {
        return None;
    }
    let discriminator = sub_bytes(d, 0, 8);
    let last_time_voted = u32_from_le_bytes(slice_subrange(d, 8, 12));
    let status_byte = *vstd::slice::slice_index_get(d, 12);
    if status_byte != 0 && status_byte != 1 {
        return None;
    }
    let title_len = u32_from_le_bytes(slice_subrange(d, 13, 17)) as usize;
    if d.len() - VOTER_FIXED_LEN < title_len {
        return None;
    }
    let voted_to = sub_bytes(d, 17, 17 + title_len);
    Some(
        VoterRecord {
            discriminator,
            last_time_voted,
            vote_status: status_byte == 1,
            voted_to,
        },
    )
}

} // verus!
