//! The stated laws of the validation pipelines.
//!
//! Each proof function states one property of the handlers' outcomes for
//! every input its `requires` admits. The pipelines short-circuit, so a
//! property of one check holds where the checks ordered before it pass;
//! each law's `requires` says exactly that and no more.
use vstd::prelude::*;

use crate::account::Account;
use crate::effects::{effect_address, effect_data, EffectModel};
use crate::errors::VoteError;
use crate::handlers::{
    cast_vote_outcome, create_poll_outcome, has_tag, new_poll_model, new_voter_model,
    spec_system_collaborator_key, update_vote_outcome, MAX_VOTING_TIME, MIN_TITLE_LEN,
};
use crate::instructions::{spec_decode_create, spec_decode_vote};
use crate::pda::{spec_poll_address, spec_voter_address};
use crate::records::{
    lemma_poll_round_trip, lemma_voter_round_trip, poll_wf, spec_decode_poll, spec_decode_voter,
    spec_encode_poll, spec_encode_voter, voter_wf, VoterModel, IDENTITY_LEN, MAX_TITLE_LEN,
    TYPE_TAG_LEN,
};
use crate::tags::{spec_poll_record_tag, spec_voter_record_tag};

verus! {

/// The checks of CreatePoll ordered before the temporal and field checks:
/// the payload decodes, the invoker signed, the writability and collaborator
/// checks pass, and the poll address derives and matches.
pub open spec fn create_poll_accounts_valid(
    program_id: Seq<u8>,
    user: Account,
    pda: Account,
    system_program: Account,
    payload: Seq<u8>,
) -> bool {
    &&& spec_decode_create(payload) is Some
    &&& user.is_signer
    &&& user.is_writable
    &&& pda.is_writable
    &&& system_program.key@ == spec_system_collaborator_key()
    &&& spec_poll_address(spec_decode_create(payload).unwrap().title, program_id) is Some
    &&& spec_poll_address(spec_decode_create(payload).unwrap().title, program_id).unwrap().0
        == pda.key@
}

/// CreatePoll rejects every starting time that already lies in the past,
/// with `InvalidStartingTime`.
pub proof fn lemma_create_poll_rejects_past_start(
    program_id: Seq<u8>,
    user: Account,
    pda: Account,
    system_program: Account,
    payload: Seq<u8>,
    now: u32,
)
    requires
        create_poll_accounts_valid(program_id, user, pda, system_program, payload),
        spec_decode_create(payload).unwrap().starts_at < now,
    ensures
        create_poll_outcome(program_id, user, pda, system_program, payload, now) == Err::<
            EffectModel,
            VoteError,
        >(VoteError::InvalidStartingTime),
{
}

/// CreatePoll rejects every window that does not end strictly after it
/// starts, with `InvalidEndingTime`.
pub proof fn lemma_create_poll_rejects_empty_window(
    program_id: Seq<u8>,
    user: Account,
    pda: Account,
    system_program: Account,
    payload: Seq<u8>,
    now: u32,
)
    requires
        create_poll_accounts_valid(program_id, user, pda, system_program, payload),
        spec_decode_create(payload).unwrap().starts_at >= now,
        spec_decode_create(payload).unwrap().ends_at <= spec_decode_create(
            payload,
        ).unwrap().starts_at,
    ensures
        create_poll_outcome(program_id, user, pda, system_program, payload, now) == Err::<
            EffectModel,
            VoteError,
        >(VoteError::InvalidEndingTime),
{
}

/// CreatePoll rejects every title shorter than the minimum length, with
/// `TitleInvalidLength`.
pub proof fn lemma_create_poll_rejects_short_title(
    program_id: Seq<u8>,
    user: Account,
    pda: Account,
    system_program: Account,
    payload: Seq<u8>,
    now: u32,
)
    requires
        create_poll_accounts_valid(program_id, user, pda, system_program, payload),
        spec_decode_create(payload).unwrap().starts_at >= now,
        spec_decode_create(payload).unwrap().ends_at > spec_decode_create(
            payload,
        ).unwrap().starts_at,
        spec_decode_create(payload).unwrap().title.len() < MIN_TITLE_LEN,
    ensures
        create_poll_outcome(program_id, user, pda, system_program, payload, now) == Err::<
            EffectModel,
            VoteError,
        >(VoteError::TitleInvalidLength),
{
}

/// CreatePoll rejects every window longer than the maximum voting time,
/// with `MaxVotingTimeExceeded`.
pub proof fn lemma_create_poll_rejects_long_window(
    program_id: Seq<u8>,
    user: Account,
    pda: Account,
    system_program: Account,
    payload: Seq<u8>,
    now: u32,
)
    requires
        create_poll_accounts_valid(program_id, user, pda, system_program, payload),
        spec_decode_create(payload).unwrap().starts_at >= now,
        spec_decode_create(payload).unwrap().ends_at > spec_decode_create(
            payload,
        ).unwrap().starts_at,
        spec_decode_create(payload).unwrap().title.len() >= MIN_TITLE_LEN,
        spec_decode_create(payload).unwrap().ends_at - spec_decode_create(
            payload,
        ).unwrap().starts_at > MAX_VOTING_TIME,
    ensures
        create_poll_outcome(program_id, user, pda, system_program, payload, now) == Err::<
            EffectModel,
            VoteError,
        >(VoteError::MaxVotingTimeExceeded),
{
}

/// UpdateVote rejects every title shorter than the minimum length, with
/// `TitleInvalidLength`: its title check stands right after its account
/// checks and payload decode.
pub proof fn lemma_update_vote_rejects_short_title(
    program_id: Seq<u8>,
    user: Account,
    voting_account: Account,
    user_vote_account: Account,
    payload: Seq<u8>,
    now: u32,
)
    requires
        user.is_signer,
        voting_account.owner@ == program_id,
        user_vote_account.owner@ == program_id,
        user_vote_account.is_writable,
        spec_decode_vote(payload) is Some,
        spec_decode_vote(payload).unwrap().vote_title.len() < MIN_TITLE_LEN,
    ensures
        update_vote_outcome(program_id, user, voting_account, user_vote_account, payload, now)
            == Err::<EffectModel, VoteError>(VoteError::TitleInvalidLength),
{
}

/// The checks of CastVote ordered before its temporal checks: the account
/// flags and collaborator check pass, the payload decodes, the poll address
/// derives and matches, the poll account is the program's, carries the poll
/// tag, and its record decodes.
pub open spec fn cast_vote_poll_valid(
    program_id: Seq<u8>,
    user: Account,
    voting_account: Account,
    user_vote_account: Account,
    system_program: Account,
    payload: Seq<u8>,
) -> bool {
    &&& user.is_signer
    &&& user.is_writable
    &&& user_vote_account.is_writable
    &&& system_program.key@ == spec_system_collaborator_key()
    &&& spec_decode_vote(payload) is Some
    &&& spec_poll_address(spec_decode_vote(payload).unwrap().vote_title, program_id) is Some
    &&& voting_account.key@ == spec_poll_address(
        spec_decode_vote(payload).unwrap().vote_title,
        program_id,
    ).unwrap().0
    &&& voting_account.owner@ == program_id
    &&& has_tag(voting_account.data@, spec_poll_record_tag())
    &&& spec_decode_poll(voting_account.data@) is Some
}

/// CastVote rejects every time before the poll opens with
/// `VotingNotStarted`, and every time after the poll closes with
/// `VotingEnded`. The stored window must open no later than it closes —
/// true of every poll CreatePoll stores, which demands strictly more.
pub proof fn lemma_cast_vote_rejects_outside_window(
    program_id: Seq<u8>,
    user: Account,
    voting_account: Account,
    user_vote_account: Account,
    system_program: Account,
    payload: Seq<u8>,
    now: u32,
)
    requires
        cast_vote_poll_valid(
            program_id,
            user,
            voting_account,
            user_vote_account,
            system_program,
            payload,
        ),
        spec_decode_poll(voting_account.data@).unwrap().starts_at <= spec_decode_poll(
            voting_account.data@,
        ).unwrap().ends_at,
    ensures
        now < spec_decode_poll(voting_account.data@).unwrap().starts_at ==> cast_vote_outcome(
            program_id,
            user,
            voting_account,
            user_vote_account,
            system_program,
            payload,
            now,
        ) == Err::<EffectModel, VoteError>(VoteError::VotingNotStarted),
        now > spec_decode_poll(voting_account.data@).unwrap().ends_at ==> cast_vote_outcome(
            program_id,
            user,
            voting_account,
            user_vote_account,
            system_program,
            payload,
            now,
        ) == Err::<EffectModel, VoteError>(VoteError::VotingEnded),
{
}

/// CastVote's closing bound is inclusive: inside the window, the closing
/// instant itself included, a vote whose voter address also derives and
/// matches succeeds.
pub proof fn lemma_cast_vote_closing_bound_inclusive(
    program_id: Seq<u8>,
    user: Account,
    voting_account: Account,
    user_vote_account: Account,
    system_program: Account,
    payload: Seq<u8>,
    now: u32,
)
    requires
        cast_vote_poll_valid(
            program_id,
            user,
            voting_account,
            user_vote_account,
            system_program,
            payload,
        ),
        spec_decode_poll(voting_account.data@).unwrap().starts_at <= now,
        now <= spec_decode_poll(voting_account.data@).unwrap().ends_at,
        spec_voter_address(
            spec_decode_poll(voting_account.data@).unwrap().title,
            user.key@,
            program_id,
        ) is Some,
        spec_voter_address(
            spec_decode_poll(voting_account.data@).unwrap().title,
            user.key@,
            program_id,
        ).unwrap().0 == user_vote_account.key@,
    ensures
        cast_vote_outcome(
            program_id,
            user,
            voting_account,
            user_vote_account,
            system_program,
            payload,
            now,
        ) is Ok,
{
}

/// The checks of UpdateVote ordered before its temporal checks.
pub open spec fn update_vote_poll_valid(
    program_id: Seq<u8>,
    user: Account,
    voting_account: Account,
    user_vote_account: Account,
    payload: Seq<u8>,
) -> bool {
    &&& user.is_signer
    &&& voting_account.owner@ == program_id
    &&& user_vote_account.owner@ == program_id
    &&& user_vote_account.is_writable
    &&& spec_decode_vote(payload) is Some
    &&& spec_decode_vote(payload).unwrap().vote_title.len() >= MIN_TITLE_LEN
    &&& spec_poll_address(spec_decode_vote(payload).unwrap().vote_title, program_id) is Some
    &&& voting_account.key@ == spec_poll_address(
        spec_decode_vote(payload).unwrap().vote_title,
        program_id,
    ).unwrap().0
    &&& spec_voter_address(
        spec_decode_vote(payload).unwrap().vote_title,
        user.key@,
        program_id,
    ) is Some
    &&& user_vote_account.key@ == spec_voter_address(
        spec_decode_vote(payload).unwrap().vote_title,
        user.key@,
        program_id,
    ).unwrap().0
    &&& has_tag(voting_account.data@, spec_poll_record_tag())
    &&& spec_decode_poll(voting_account.data@) is Some
}

/// UpdateVote's closing bound is strict: at the closing instant itself, a
/// time CastVote still accepts, UpdateVote fails with `VotingEnded`. The
/// asymmetry between the two closing bounds is deliberate and preserved.
pub proof fn lemma_update_vote_closing_bound_strict(
    program_id: Seq<u8>,
    user: Account,
    voting_account: Account,
    user_vote_account: Account,
    payload: Seq<u8>,
    now: u32,
)
    requires
        update_vote_poll_valid(program_id, user, voting_account, user_vote_account, payload),
        spec_decode_poll(voting_account.data@).unwrap().starts_at <= now,
        now >= spec_decode_poll(voting_account.data@).unwrap().ends_at,
    ensures
        update_vote_outcome(program_id, user, voting_account, user_vote_account, payload, now)
            == Err::<EffectModel, VoteError>(VoteError::VotingEnded),
{
}

/// UpdateVote succeeds strictly inside the window when the voter record
/// also carries its tag and decodes.
pub proof fn lemma_update_vote_succeeds_inside_window(
    program_id: Seq<u8>,
    user: Account,
    voting_account: Account,
    user_vote_account: Account,
    payload: Seq<u8>,
    now: u32,
)
    requires
        update_vote_poll_valid(program_id, user, voting_account, user_vote_account, payload),
        spec_decode_poll(voting_account.data@).unwrap().starts_at <= now,
        now < spec_decode_poll(voting_account.data@).unwrap().ends_at,
        has_tag(user_vote_account.data@, spec_voter_record_tag()),
        crate::records::spec_decode_voter(user_vote_account.data@) is Some,
    ensures
        update_vote_outcome(program_id, user, voting_account, user_vote_account, payload, now)
            is Ok,
{
}

/// A successful CreatePoll stores exactly the record its instruction
/// describes: the effect's bytes are the encoding of a poll record carrying
/// the poll tag, the invoker as creator, and the instruction's window and
/// title — and those bytes decode back to that record, so every later read
/// sees it. The window it stores is valid: it opens no earlier than the
/// creation time, closes strictly after it opens, and is no longer than the
/// maximum voting time. The tag's width is the type tag width, as the tag
/// builders ensure of every tag they hand out.
pub proof fn lemma_create_poll_stores_the_instruction(
    program_id: Seq<u8>,
    user: Account,
    pda: Account,
    system_program: Account,
    payload: Seq<u8>,
    now: u32,
)
    requires
        spec_poll_record_tag().len() == TYPE_TAG_LEN,
        user.key@.len() == IDENTITY_LEN,
        create_poll_outcome(program_id, user, pda, system_program, payload, now) is Ok,
    ensures
        ({
            let ix = spec_decode_create(payload).unwrap();
            let stored = new_poll_model(user.key@, ix);
            &&& effect_data(
                create_poll_outcome(program_id, user, pda, system_program, payload, now).unwrap(),
            ) == spec_encode_poll(stored)
            &&& spec_decode_poll(spec_encode_poll(stored)) == Some(stored)
            &&& stored.tag == spec_poll_record_tag()
            &&& stored.creator == user.key@
            &&& now <= stored.starts_at < stored.ends_at
            &&& stored.ends_at - stored.starts_at <= MAX_VOTING_TIME
            &&& MIN_TITLE_LEN <= stored.title.len()
            &&& (stored.title.len() <= MAX_TITLE_LEN ==> poll_wf(stored))
        }),
{
    let ix = spec_decode_create(payload).unwrap();
    lemma_poll_round_trip(new_poll_model(user.key@, ix));
}

/// A successful CastVote stores exactly the vote its instruction casts: the
/// effect's bytes are the encoding of a voter record carrying the voter
/// tag, the current time as the write time, the instruction's choice, and
/// the poll title it names — and those bytes decode back to that record.
pub proof fn lemma_cast_vote_stores_the_vote(
    program_id: Seq<u8>,
    user: Account,
    voting_account: Account,
    user_vote_account: Account,
    system_program: Account,
    payload: Seq<u8>,
    now: u32,
)
    requires
        spec_voter_record_tag().len() == TYPE_TAG_LEN,
        cast_vote_outcome(
            program_id,
            user,
            voting_account,
            user_vote_account,
            system_program,
            payload,
            now,
        ) is Ok,
    ensures
        ({
            let ix = spec_decode_vote(payload).unwrap();
            let stored = new_voter_model(now, ix);
            &&& effect_data(
                cast_vote_outcome(
                    program_id,
                    user,
                    voting_account,
                    user_vote_account,
                    system_program,
                    payload,
                    now,
                ).unwrap(),
            ) == spec_encode_voter(stored)
            &&& spec_decode_voter(spec_encode_voter(stored)) == Some(stored)
            &&& stored.tag == spec_voter_record_tag()
            &&& stored.last_time_voted == now
            &&& stored.vote_status == ix.vote
            &&& stored.voted_to == ix.vote_title
            &&& (stored.voted_to.len() <= MAX_TITLE_LEN ==> voter_wf(stored))
        }),
{
    let ix = spec_decode_vote(payload).unwrap();
    lemma_voter_round_trip(new_voter_model(now, ix));
}

/// A successful UpdateVote overwrites exactly the two mutable fields: the
/// bytes written back are the encoding of the existing record with its
/// choice replaced by the instruction's and its write time replaced by the
/// current time — type tag and poll title kept — and they decode back to
/// that record, at the voter record's own address.
pub proof fn lemma_update_vote_overwrites_in_place(
    program_id: Seq<u8>,
    user: Account,
    voting_account: Account,
    user_vote_account: Account,
    payload: Seq<u8>,
    now: u32,
)
    requires
        spec_voter_record_tag().len() == TYPE_TAG_LEN,
        update_vote_outcome(program_id, user, voting_account, user_vote_account, payload, now)
            is Ok,
    ensures
        ({
            let ix = spec_decode_vote(payload).unwrap();
            let old_rec = spec_decode_voter(user_vote_account.data@).unwrap();
            let stored = (VoterModel {
                tag: old_rec.tag,
                last_time_voted: now,
                vote_status: ix.vote,
                voted_to: old_rec.voted_to,
            });
            let e = update_vote_outcome(
                program_id,
                user,
                voting_account,
                user_vote_account,
                payload,
                now,
            ).unwrap();
            &&& effect_address(e) == user_vote_account.key@
            &&& effect_data(e) == spec_encode_voter(stored)
            &&& spec_decode_voter(spec_encode_voter(stored)) == Some(stored)
            &&& stored.tag == old_rec.tag
            &&& stored.voted_to == old_rec.voted_to
        }),
{
    let ix = spec_decode_vote(payload).unwrap();
    let old_rec = spec_decode_voter(user_vote_account.data@).unwrap();
    let stored = (VoterModel {
        tag: old_rec.tag,
        last_time_voted: now,
        vote_status: ix.vote,
        voted_to: old_rec.voted_to,
    });
    lemma_voter_round_trip(stored);
}

/// Address derivation is idempotent: the outcome — address and
/// disambiguator alike, or the absence of both — is a function of the
/// domain separator, the seed parts and the program identity, and of
/// nothing else. The library models derivation as a mathematical function,
/// so equal inputs have equal outcomes by construction; this lemma states
/// that choice. That differing parts yield differing addresses holds only
/// with overwhelming probability and is no theorem: the tests witness it on
/// concrete values.
pub proof fn lemma_derivation_deterministic(
    sep: Seq<char>,
    part1: Seq<u8>,
    part2: Option<Seq<u8>>,
    program_id: Seq<u8>,
    sep2: Seq<char>,
    part1_2: Seq<u8>,
    part2_2: Option<Seq<u8>>,
    program_id2: Seq<u8>,
)
    requires
        sep == sep2,
        part1 == part1_2,
        part2 == part2_2,
        program_id == program_id2,
    ensures
        crate::pda::pda_of(sep, part1, part2, program_id) == crate::pda::pda_of(
            sep2,
            part1_2,
            part2_2,
            program_id2,
        ),
{
}

/// Address derivation is a function of its inputs: two successful
/// CreatePoll invocations for the same title against the same program
/// target the same storage address, whatever else differs. The allocation
/// primitive's at-most-one-success semantics therefore makes a poll's title
/// its unique key: the second creation fails at the allocation step.
pub proof fn lemma_create_poll_same_title_same_address(
    program_id: Seq<u8>,
    user1: Account,
    pda1: Account,
    system_program1: Account,
    payload1: Seq<u8>,
    now1: u32,
    user2: Account,
    pda2: Account,
    system_program2: Account,
    payload2: Seq<u8>,
    now2: u32,
)
    requires
        create_poll_outcome(program_id, user1, pda1, system_program1, payload1, now1) is Ok,
        create_poll_outcome(program_id, user2, pda2, system_program2, payload2, now2) is Ok,
        spec_decode_create(payload1).unwrap().title == spec_decode_create(payload2).unwrap().title,
    ensures
        effect_address(
            create_poll_outcome(program_id, user1, pda1, system_program1, payload1, now1).unwrap(),
        ) == effect_address(
            create_poll_outcome(program_id, user2, pda2, system_program2, payload2, now2).unwrap(),
        ),
{
}

} // verus!
