//! The instruction dispatcher.
//!
//! An instruction payload is an 8-byte operation tag followed by the
//! operation's own fields. The dispatcher compares the tag, in order,
//! against the three operations' tags and runs the matching handler on the
//! rest of the payload; an unknown tag fails the invocation.
use vstd::prelude::*;

use crate::account::Account;
use crate::bytes_util::bytes_eq;
use crate::effects::{effect_result_view, Effect, EffectModel};
use crate::errors::VoteError;
use crate::handlers::{
    cast_vote, cast_vote_outcome, create_poll, create_poll_outcome, update_vote,
    update_vote_outcome,
};
use crate::tags::{
    cast_vote_tag, create_poll_tag, spec_cast_vote_tag, spec_create_poll_tag,
    spec_update_vote_tag, update_vote_tag,
};
use vstd::slice::slice_subrange;

verus! {

/// The exact outcome of one invocation: the matching operation's outcome on
/// the accounts it reads, or the error that rejects the invocation.
///
/// CreatePoll reads the invoker, the poll record account and the allocation
/// collaborator; CastVote reads the invoker, the poll record account, the
/// voter record account and the collaborator; UpdateVote reads the invoker,
/// the poll record account and the voter record account.
pub open spec fn spec_process(
    program_id: Seq<u8>,
    accounts: Seq<Account>,
    instruction_data: Seq<u8>,
    now: u32,
) -> Result<EffectModel, VoteError> {
    let op = instruction_data.take(8);
    let payload = instruction_data.skip(8);
    if op == spec_create_poll_tag() {
        if accounts.len() < 3 {
            Err(VoteError::NotEnoughAccounts)
        } else {
            create_poll_outcome(program_id, accounts[0], accounts[1], accounts[2], payload, now)
        }
    } else if op == spec_cast_vote_tag() {
        if accounts.len() < 4 {
            Err(VoteError::NotEnoughAccounts)
        } else {
            cast_vote_outcome(
                program_id,
                accounts[0],
                accounts[1],
                accounts[2],
                accounts[3],
                payload,
                now,
            )
        }
    } else if op == spec_update_vote_tag() {
        if accounts.len() < 3 {
            Err(VoteError::NotEnoughAccounts)
        } else {
            update_vote_outcome(program_id, accounts[0], accounts[1], accounts[2], payload, now)
        }
    } else {
        Err(VoteError::UnrecognizedInstruction)
    }
}

/// Runs one invocation of the program: reads the operation tag, dispatches
/// to the matching handler, and returns the effect the host is to apply or
/// the error that aborts the invocation with no persisted change.
///
/// `now` is the current time as the host's clock oracle reports it.
pub fn process_instruction(
    program_id: &[u8],
    accounts: &Vec<Account>,
    instruction_data: &[u8],
    now: u32,
) -> (r: Result<Effect, VoteError>)
    requires
        program_id@.len() == 32,
        instruction_data@.len() >= 8,
    ensures
        effect_result_view(r) == spec_process(program_id@, accounts@, instruction_data@, now),
{
    let op = slice_subrange(instruction_data, 0, 8);
    proof {
        assert(op@ =~= instruction_data@.take(8));
    }
    let payload = slice_subrange(instruction_data, 8, instruction_data.len());
    proof {
        assert(payload@ =~= instruction_data@.skip(8));
    }
    let create_tag = create_poll_tag();
    if bytes_eq(op, create_tag.as_slice()) {
        if accounts.len() < 3 {
            return Err(VoteError::NotEnoughAccounts);
        }
        return create_poll(program_id, &accounts[0], &accounts[1], &accounts[2], payload, now);
    }
    let cast_tag = cast_vote_tag();
    if bytes_eq(op, cast_tag.as_slice()) {
        if accounts.len() < 4 {
            return Err(VoteError::NotEnoughAccounts);
        }
        return cast_vote(
            program_id,
            &accounts[0],
            &accounts[1],
            &accounts[2],
            &accounts[3],
            payload,
            now,
        );
    }
    let update_tag = update_vote_tag();
    if bytes_eq(op, update_tag.as_slice()) {
        if accounts.len() < 3 {
            return Err(VoteError::NotEnoughAccounts);
        }
        return update_vote(program_id, &accounts[0], &accounts[1], &accounts[2], payload, now);
    }
    Err(VoteError::UnrecognizedInstruction)
}

} // verus!
