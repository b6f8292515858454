//! The three operation handlers and their validation pipelines.
//!
//! Each handler is an ordered, short-circuiting pipeline: the first failing
//! check's error is the invocation's result, and only when every check
//! passes does the handler return the one effect the host is to apply. The
//! `*_outcome` spec functions state each pipeline exactly — check order,
//! error kinds, and the produced effect — and each handler is proved to
//! return precisely that outcome.
use vstd::prelude::*;

use crate::account::Account;
use crate::bytes_util::{bytes_eq, copy_bytes};
use crate::effects::{effect_result_view, Effect, EffectModel, SeedNamespace};
use crate::errors::VoteError;
use crate::instructions::{
    decode_create, decode_vote, spec_decode_create, spec_decode_vote, CreatePollModel, VoteModel,
};
use crate::pda::{
    derive_poll_address, derive_voter_address, poll_namespace, spec_poll_address,
    spec_voter_address, voter_namespace,
};
use crate::records::{
    decode_poll, decode_voter, encode_poll, encode_voter, spec_decode_poll, spec_decode_voter,
    spec_encode_poll, spec_encode_voter, PollModel, PollRecord, VoterModel, VoterRecord,
    POLL_RECORD_SPACE, VOTER_RECORD_SPACE,
};
use crate::tags::{
    poll_record_tag, spec_poll_record_tag, spec_voter_record_tag, voter_record_tag,
};

verus! {

/// The longest allowed voting window, in seconds (two weeks).
pub const MAX_VOTING_TIME: u32 = 1_209_600;

/// The least allowed title length, in bytes.
pub const MIN_TITLE_LEN: usize = 10;

/// The well-known identity of the storage-allocation collaborator (the
/// host's system program): the zero address.
pub open spec fn spec_system_collaborator_key() -> Seq<u8> {
    Seq::new(32, |i: int| 0u8)
}

/// Builds the storage-allocation collaborator's well-known identity.
pub fn system_collaborator_key() -> (r: Vec<u8>)
    ensures
        r@ == spec_system_collaborator_key(),
{
    let mut v: Vec<u8> = Vec::new();
    let mut i: usize = 0;
    while i < 32
        invariant
            i <= 32,
            v@.len() == i,
            forall|j: int| 0 <= j < i ==> v@[j] == 0u8,
        decreases 32 - i,
    {
        v.push(0);
        i += 1;
    }
    proof {
        assert(v@ =~= spec_system_collaborator_key());
    }
    v
}

/// The poll record a successful CreatePoll stores.
pub open spec fn new_poll_model(creator: Seq<u8>, ix: CreatePollModel) -> PollModel {
    (PollModel {
        tag: spec_poll_record_tag(),
        creator: creator,
        starts_at: ix.starts_at,
        ends_at: ix.ends_at,
        title: ix.title,
    })
}

/// The voter record a successful CastVote stores.
pub open spec fn new_voter_model(now: u32, ix: VoteModel) -> VoterModel {
    (VoterModel {
        tag: spec_voter_record_tag(),
        last_time_voted: now,
        vote_status: ix.vote,
        voted_to: ix.vote_title,
    })
}

/// Whether an account's leading bytes carry the given type tag.
pub open spec fn has_tag(data: Seq<u8>, tag: Seq<u8>) -> bool {
    data.len() >= 8 && data.take(8) == tag
}

/// The exact outcome of CreatePoll: the first failing check's error, or the
/// allocate-and-write effect for the new poll record.
pub open spec fn create_poll_outcome(
    program_id: Seq<u8>,
    user: Account,
    pda: Account,
    system_program: Account,
    payload: Seq<u8>,
    now: u32,
) -> Result<EffectModel, VoteError> {
    match spec_decode_create(payload) {
        None => Err(VoteError::MalformedInstruction),
        Some(ix) => if !user.is_signer {
            Err(VoteError::UserSigningNeeded)
        } else if !user.is_writable {
            Err(VoteError::UsersAccountMustBeMutable)
        } else if !pda.is_writable {
            Err(VoteError::PDAsAccountMustBeMutable)
        } else if system_program.key@ != spec_system_collaborator_key() {
            Err(VoteError::InvalidSystemProgram)
        } else {
            match spec_poll_address(ix.title, program_id) {
                None => Err(VoteError::InvalidPdaAddress),
                Some(d) => if d.0 != pda.key@ {
                    Err(VoteError::InvalidPdaAddress)
                } else if ix.starts_at < now {
                    Err(VoteError::InvalidStartingTime)
                } else if ix.ends_at <= ix.starts_at {
                    Err(VoteError::InvalidEndingTime)
                } else if ix.title.len() < MIN_TITLE_LEN {
                    Err(VoteError::TitleInvalidLength)
                } else if ix.ends_at - ix.starts_at > MAX_VOTING_TIME {
                    Err(VoteError::MaxVotingTimeExceeded)
                } else {
                    Ok(
                        (EffectModel::CreateRecord {
                            payer: user.key@,
                            address: d.0,
                            space: POLL_RECORD_SPACE,
                            namespace: poll_namespace(),
                            seed_title: ix.title,
                            seed_voter: None,
                            bump: d.1,
                            data: spec_encode_poll(new_poll_model(user.key@, ix)),
                        }),
                    )
                },
            }
        },
    }
}

/// Validates a CreatePoll instruction and, when every check passes, returns
/// the allocation-and-write effect for the new poll record.
pub fn create_poll(
    program_id: &[u8],
    user: &Account,
    pda: &Account,
    system_program: &Account,
    payload: &[u8],
    now: u32,
) -> (r: Result<Effect, VoteError>)
    requires
        program_id@.len() == 32,
    ensures
        effect_result_view(r) == create_poll_outcome(
            program_id@,
            *user,
            *pda,
            *system_program,
            payload@,
            now,
        ),
{
    let ix = match decode_create(payload) {
        Some(ix) => ix,
        None => {
            return Err(VoteError::MalformedInstruction);
        },
    };
    if !user.is_signer {
        return Err(VoteError::UserSigningNeeded);
    }
    if !user.is_writable {
        return Err(VoteError::UsersAccountMustBeMutable);
    }
    if !pda.is_writable {
        return Err(VoteError::PDAsAccountMustBeMutable);
    }
    let sys_key = system_collaborator_key();
    if !bytes_eq(system_program.key.as_slice(), sys_key.as_slice()) {
        return Err(VoteError::InvalidSystemProgram);
    }
    let (address, bump) = match derive_poll_address(program_id, ix.title.as_slice()) {
        Some(d) => d,
        None => {
            return Err(VoteError::InvalidPdaAddress);
        },
    };
    if !bytes_eq(address.as_slice(), pda.key.as_slice()) {
        return Err(VoteError::InvalidPdaAddress);
    }
    if ix.starts_at < now {
        return Err(VoteError::InvalidStartingTime);
    }
    if ix.ends_at <= ix.starts_at {
        return Err(VoteError::InvalidEndingTime);
    }
    if ix.title.len() < MIN_TITLE_LEN {
        return Err(VoteError::TitleInvalidLength);
    }
    if ix.ends_at - ix.starts_at > MAX_VOTING_TIME {
        return Err(VoteError::MaxVotingTimeExceeded);
    }
    let record = PollRecord {
        discriminator: poll_record_tag(),
        creator: copy_bytes(user.key.as_slice()),
        starts_at: ix.starts_at,
        ends_at: ix.ends_at,
        title: ix.title,
    };
    proof {
        assert(record@ =~= new_poll_model(user.key@, spec_decode_create(payload@).unwrap()));
    }
    let data = encode_poll(&record);
    let payer = copy_bytes(user.key.as_slice());
    let effect = Effect::CreateRecord {
        payer,
        address,
        space: POLL_RECORD_SPACE,
        namespace: SeedNamespace::Poll,
        seed_title: record.title,
        seed_voter: None,
        bump,
        data,
    };
    proof {
        assert(effect@ =~= create_poll_outcome(
            program_id@,
            *user,
            *pda,
            *system_program,
            payload@,
            now,
        ).unwrap());
    }
    Ok(effect)
}

/// The exact outcome of CastVote: the first failing check's error, or the
/// allocate-and-write effect for the voter's new record.
pub open spec fn cast_vote_outcome(
    program_id: Seq<u8>,
    user: Account,
    voting_account: Account,
    user_vote_account: Account,
    system_program: Account,
    payload: Seq<u8>,
    now: u32,
) -> Result<EffectModel, VoteError> {
    if !user.is_signer {
        Err(VoteError::UserSigningNeeded)
    } else if !user.is_writable {
        Err(VoteError::UsersAccountMustBeMutable)
    } else if !user_vote_account.is_writable {
        Err(VoteError::PDAsAccountMustBeMutable)
    } else if system_program.key@ != spec_system_collaborator_key() {
        Err(VoteError::InvalidSystemProgram)
    } else {
        match spec_decode_vote(payload) {
            None => Err(VoteError::MalformedInstruction),
            Some(ix) => match spec_poll_address(ix.vote_title, program_id) {
                None => Err(VoteError::InvalidPdaAddress),
                Some(d) => if voting_account.key@ != d.0 {
                    Err(VoteError::InvalidPdaAddress)
                } else if voting_account.owner@ != program_id {
                    Err(VoteError::InvalidAccountOwner)
                } else if !has_tag(voting_account.data@, spec_poll_record_tag()) {
                    Err(VoteError::MalformedAccountData)
                } else {
                    match spec_decode_poll(voting_account.data@) {
                        None => Err(VoteError::MalformedAccountData),
                        Some(poll) => if poll.starts_at > now {
                            Err(VoteError::VotingNotStarted)
                        } else if poll.ends_at < now {
                            Err(VoteError::VotingEnded)
                        } else {
                            match spec_voter_address(poll.title, user.key@, program_id) {
                                None => Err(VoteError::InvalidPdaAddress),
                                Some(vd) => if vd.0 != user_vote_account.key@ {
                                    Err(VoteError::InvalidPdaAddress)
                                } else {
                                    Ok(
                                        (EffectModel::CreateRecord {
                                            payer: user.key@,
                                            address: vd.0,
                                            space: VOTER_RECORD_SPACE,
                                            namespace: voter_namespace(),
                                            seed_title: poll.title,
                                            seed_voter: Some(user.key@),
                                            bump: vd.1,
                                            data: spec_encode_voter(new_voter_model(now, ix)),
                                        }),
                                    )
                                },
                            }
                        },
                    }
                },
            },
        }
    }
}

/// Validates a CastVote instruction against the poll it names and, when
/// every check passes, returns the allocation-and-write effect for the
/// voter's new record. The record's address makes a first vote per voter
/// and poll a creation; a second vote collides at allocation and must use
/// UpdateVote.
pub fn cast_vote(
    program_id: &[u8],
    user: &Account,
    voting_account: &Account,
    user_vote_account: &Account,
    system_program: &Account,
    payload: &[u8],
    now: u32,
) -> (r: Result<Effect, VoteError>)
    requires
        program_id@.len() == 32,
    ensures
        effect_result_view(r) == cast_vote_outcome(
            program_id@,
            *user,
            *voting_account,
            *user_vote_account,
            *system_program,
            payload@,
            now,
        ),
{
    if !user.is_signer {
        return Err(VoteError::UserSigningNeeded);
    }
    if !user.is_writable {
        return Err(VoteError::UsersAccountMustBeMutable);
    }
    if !user_vote_account.is_writable {
        return Err(VoteError::PDAsAccountMustBeMutable);
    }
    let sys_key = system_collaborator_key();
    if !bytes_eq(system_program.key.as_slice(), sys_key.as_slice()) {
        return Err(VoteError::InvalidSystemProgram);
    }
    let ix = match decode_vote(payload) {
        Some(ix) => ix,
        None => {
            return Err(VoteError::MalformedInstruction);
        },
    };
    let (poll_address, _poll_bump) = match derive_poll_address(
        program_id,
        ix.vote_title.as_slice(),
    ) {
        Some(d) => d,
        None => {
            return Err(VoteError::InvalidPdaAddress);
        },
    };
    if !bytes_eq(voting_account.key.as_slice(), poll_address.as_slice()) {
        return Err(VoteError::InvalidPdaAddress);
    }
    if !bytes_eq(voting_account.owner.as_slice(), program_id) {
        return Err(VoteError::InvalidAccountOwner);
    }
    if !check_tag(voting_account.data.as_slice(), true) {
        return Err(VoteError::MalformedAccountData);
    }
    let poll = match decode_poll(voting_account.data.as_slice()) {
        Some(p) => p,
        None => {
            return Err(VoteError::MalformedAccountData);
        },
    };
    if poll.starts_at > now {
        return Err(VoteError::VotingNotStarted);
    }
    if poll.ends_at < now {
        return Err(VoteError::VotingEnded);
    }
    let (voter_address, voter_bump) = match derive_voter_address(
        program_id,
        poll.title.as_slice(),
        user.key.as_slice(),
    ) {
        Some(d) => d,
        None => {
            return Err(VoteError::InvalidPdaAddress);
        },
    };
    if !bytes_eq(voter_address.as_slice(), user_vote_account.key.as_slice()) {
        return Err(VoteError::InvalidPdaAddress);
    }
    let record = VoterRecord {
        discriminator: voter_record_tag(),
        last_time_voted: now,
        vote_status: ix.vote,
        voted_to: ix.vote_title,
    };
    proof {
        assert(record@ =~= new_voter_model(now, spec_decode_vote(payload@).unwrap()));
    }
    let data = encode_voter(&record);
    let effect = Effect::CreateRecord {
        payer: copy_bytes(user.key.as_slice()),
        address: voter_address,
        space: VOTER_RECORD_SPACE,
        namespace: SeedNamespace::Voter,
        seed_title: poll.title,
        seed_voter: Some(copy_bytes(user.key.as_slice())),
        bump: voter_bump,
        data,
    };
    proof {
        assert(effect@ =~= cast_vote_outcome(
            program_id@,
            *user,
            *voting_account,
            *user_vote_account,
            *system_program,
            payload@,
            now,
        ).unwrap());
    }
    Ok(effect)
}

/// The exact outcome of UpdateVote: the first failing check's error, or the
/// in-place overwrite of the voter's existing record with the new choice
/// and write time. Note the closing bound: UpdateVote requires
/// `now < ends_at` strictly, while CastVote accepts `now == ends_at`.
pub open spec fn update_vote_outcome(
    program_id: Seq<u8>,
    user: Account,
    voting_account: Account,
    user_vote_account: Account,
    payload: Seq<u8>,
    now: u32,
) -> Result<EffectModel, VoteError> {
    if !user.is_signer {
        Err(VoteError::UserSigningNeeded)
    } else if voting_account.owner@ != program_id {
        Err(VoteError::InvalidAccountOwner)
    } else if user_vote_account.owner@ != program_id {
        Err(VoteError::InvalidAccountOwner)
    } else if !user_vote_account.is_writable {
        Err(VoteError::PDAsAccountMustBeMutable)
    } else {
        match spec_decode_vote(payload) {
            None => Err(VoteError::MalformedInstruction),
            Some(ix) => if ix.vote_title.len() < MIN_TITLE_LEN {
                Err(VoteError::TitleInvalidLength)
            } else {
                match spec_poll_address(ix.vote_title, program_id) {
                    None => Err(VoteError::InvalidPdaAddress),
                    Some(d) => if voting_account.key@ != d.0 {
                        Err(VoteError::InvalidPdaAddress)
                    } else {
                        match spec_voter_address(ix.vote_title, user.key@, program_id) {
                            None => Err(VoteError::InvalidPdaAddress),
                            Some(vd) => if user_vote_account.key@ != vd.0 {
                                Err(VoteError::InvalidPdaAddress)
                            } else if !has_tag(voting_account.data@, spec_poll_record_tag()) {
                                Err(VoteError::MalformedAccountData)
                            } else {
                                match spec_decode_poll(voting_account.data@) {
                                    None => Err(VoteError::MalformedAccountData),
                                    Some(poll) => if poll.starts_at > now {
                                        Err(VoteError::VotingNotStarted)
                                    } else if poll.ends_at <= now {
                                        Err(VoteError::VotingEnded)
                                    } else if !has_tag(
                                        user_vote_account.data@,
                                        spec_voter_record_tag(),
                                    ) {
                                        Err(VoteError::MalformedAccountData)
                                    } else {
                                        match spec_decode_voter(user_vote_account.data@) {
                                            None => Err(VoteError::MalformedAccountData),
                                            Some(old_rec) => Ok(
                                                (EffectModel::WriteRecord {
                                                    address: user_vote_account.key@,
                                                    data: spec_encode_voter(
                                                        (VoterModel {
                                                            tag: old_rec.tag,
                                                            last_time_voted: now,
                                                            vote_status: ix.vote,
                                                            voted_to: old_rec.voted_to,
                                                        }),
                                                    ),
                                                }),
                                            ),
                                        }
                                    },
                                }
                            },
                        }
                    },
                }
            },
        }
    }
}

/// Validates an UpdateVote instruction against the poll and the voter's
/// existing record and, when every check passes, returns the in-place
/// overwrite of that record.
pub fn update_vote(
    program_id: &[u8],
    user: &Account,
    voting_account: &Account,
    user_vote_account: &Account,
    payload: &[u8],
    now: u32,
) -> (r: Result<Effect, VoteError>)
    requires
        program_id@.len() == 32,
    ensures
        effect_result_view(r) == update_vote_outcome(
            program_id@,
            *user,
            *voting_account,
            *user_vote_account,
            payload@,
            now,
        ),
{
    if !user.is_signer {
        return Err(VoteError::UserSigningNeeded);
    }
    if !bytes_eq(voting_account.owner.as_slice(), program_id) {
        return Err(VoteError::InvalidAccountOwner);
    }
    if !bytes_eq(user_vote_account.owner.as_slice(), program_id) {
        return Err(VoteError::InvalidAccountOwner);
    }
    if !user_vote_account.is_writable {
        return Err(VoteError::PDAsAccountMustBeMutable);
    }
    let ix = match decode_vote(payload) {
        Some(ix) => ix,
        None => {
            return Err(VoteError::MalformedInstruction);
        },
    };
    if ix.vote_title.len() < MIN_TITLE_LEN {
        return Err(VoteError::TitleInvalidLength);
    }
    let (poll_address, _poll_bump) = match derive_poll_address(
        program_id,
        ix.vote_title.as_slice(),
    ) {
        Some(d) => d,
        None => {
            return Err(VoteError::InvalidPdaAddress);
        },
    };
    if !bytes_eq(voting_account.key.as_slice(), poll_address.as_slice()) {
        return Err(VoteError::InvalidPdaAddress);
    }
    let (voter_address, _voter_bump) = match derive_voter_address(
        program_id,
        ix.vote_title.as_slice(),
        user.key.as_slice(),
    ) {
        Some(d) => d,
        None => {
            return Err(VoteError::InvalidPdaAddress);
        },
    };
    if !bytes_eq(user_vote_account.key.as_slice(), voter_address.as_slice()) {
        return Err(VoteError::InvalidPdaAddress);
    }
    if !check_tag(voting_account.data.as_slice(), true) {
        return Err(VoteError::MalformedAccountData);
    }
    let poll = match decode_poll(voting_account.data.as_slice()) {
        Some(p) => p,
        None => {
            return Err(VoteError::MalformedAccountData);
        },
    };
    if poll.starts_at > now {
        return Err(VoteError::VotingNotStarted);
    }
    if poll.ends_at <= now {
        return Err(VoteError::VotingEnded);
    }
    if !check_tag(user_vote_account.data.as_slice(), false) {
        return Err(VoteError::MalformedAccountData);
    }
    let old_rec = match decode_voter(user_vote_account.data.as_slice()) {
        Some(v) => v,
        None => {
            return Err(VoteError::MalformedAccountData);
        },
    };
    let record = VoterRecord {
        discriminator: old_rec.discriminator,
        last_time_voted: now,
        vote_status: ix.vote,
        voted_to: old_rec.voted_to,
    };
    let data = encode_voter(&record);
    let effect = Effect::WriteRecord { address: copy_bytes(user_vote_account.key.as_slice()), data };
    proof {
        let expected = update_vote_outcome(
            program_id@,
            *user,
            *voting_account,
            *user_vote_account,
            payload@,
            now,
        ).unwrap();
        assert(effect@ =~= expected);
    }
    Ok(effect)
}

/// Whether the account data's leading bytes carry the poll record tag
/// (`poll` true) or the voter record tag (`poll` false).
fn check_tag(data: &[u8], poll: bool) -> (r: bool)
    ensures
        poll ==> r == has_tag(data@, spec_poll_record_tag()),
        !poll ==> r == has_tag(data@, spec_voter_record_tag()),
{
    if data.len() < 8 {
        return false;
    }
    let tag = if poll {
        poll_record_tag()
    } else {
        voter_record_tag()
    };
    let leading = vstd::slice::slice_subrange(data, 0, 8);
    let r = bytes_eq(leading, tag.as_slice());
    proof {
        assert(data@.subrange(0, 8) =~= data@.take(8));
    }
    r
}

} // verus!
