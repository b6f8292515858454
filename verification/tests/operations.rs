use voting::account::Account;
use voting::dispatch::process_instruction;
use voting::effects::{Effect, SeedNamespace};
use voting::errors::VoteError;
use voting::handlers::system_collaborator_key;
use voting::pda::{derive_poll_address, derive_voter_address};
use voting::records::{decode_poll, decode_voter, encode_poll, PollRecord};
use voting::tags::{cast_vote_tag, create_poll_tag, poll_record_tag, update_vote_tag};

const PROGRAM_ID: [u8; 32] = [7u8; 32];
const USER_KEY: [u8; 32] = [1u8; 32];
const TITLE: &[u8] = b"Best Pet Ever!";
const STARTS_AT: u32 = 1000;
const ENDS_AT: u32 = 1000 + 86400;

fn account(key: Vec<u8>, owner: Vec<u8>, is_signer: bool, is_writable: bool, data: Vec<u8>) -> Account {
    Account { key, owner, is_signer, is_writable, data }
}

fn user_account() -> Account {
    account(USER_KEY.to_vec(), vec![0u8; 32], true, true, vec![])
}

fn system_account() -> Account {
    account(system_collaborator_key(), vec![0u8; 32], false, false, vec![])
}

fn create_payload(starts_at: u32, ends_at: u32, title: &[u8]) -> Vec<u8> {
    let mut v = create_poll_tag();
    v.extend_from_slice(&starts_at.to_le_bytes());
    v.extend_from_slice(&ends_at.to_le_bytes());
    v.extend_from_slice(&(title.len() as u32).to_le_bytes());
    v.extend_from_slice(title);
    v
}

fn vote_payload(op_tag: Vec<u8>, vote: bool, title: &[u8]) -> Vec<u8> {
    let mut v = op_tag;
    v.push(if vote { 1 } else { 0 });
    v.extend_from_slice(&(title.len() as u32).to_le_bytes());
    v.extend_from_slice(title);
    v
}

/// Runs CreatePoll for the standard poll and returns the stored record
/// bytes, padded to the poll record's fixed allocation as the host pads
/// them.
fn stored_poll_bytes() -> Vec<u8> {
    let (addr, _) = derive_poll_address(&PROGRAM_ID, TITLE).unwrap();
    let pda = account(addr, vec![0u8; 32], false, true, vec![]);
    let accounts = vec![user_account(), pda, system_account()];
    let payload = create_payload(STARTS_AT, ENDS_AT, TITLE);
    let effect = process_instruction(&PROGRAM_ID, &accounts, &payload, 900).unwrap();
    match effect {
        Effect::CreateRecord { data, space, .. } => {
            let mut stored = data;
            stored.resize(space as usize, 0);
            stored
        }
        Effect::WriteRecord { .. } => panic!("CreatePoll allocates"),
    }
}

fn poll_account() -> Account {
    let (addr, _) = derive_poll_address(&PROGRAM_ID, TITLE).unwrap();
    account(addr, PROGRAM_ID.to_vec(), false, true, stored_poll_bytes())
}

/// Runs CastVote for the standard poll and returns the voter record bytes
/// as stored.
fn stored_voter_bytes(vote: bool, now: u32) -> Vec<u8> {
    let (vaddr, _) = derive_voter_address(&PROGRAM_ID, TITLE, &USER_KEY).unwrap();
    let voter_acc = account(vaddr, vec![0u8; 32], false, true, vec![]);
    let accounts = vec![user_account(), poll_account(), voter_acc, system_account()];
    let payload = vote_payload(cast_vote_tag(), vote, TITLE);
    let effect = process_instruction(&PROGRAM_ID, &accounts, &payload, now).unwrap();
    match effect {
        Effect::CreateRecord { data, space, .. } => {
            let mut stored = data;
            stored.resize(space as usize, 0);
            stored
        }
        Effect::WriteRecord { .. } => panic!("CastVote allocates"),
    }
}

fn voter_account(vote: bool, now: u32) -> Account {
    let (vaddr, _) = derive_voter_address(&PROGRAM_ID, TITLE, &USER_KEY).unwrap();
    account(vaddr, PROGRAM_ID.to_vec(), false, true, stored_voter_bytes(vote, now))
}

fn cast_vote_at(now: u32) -> Result<Effect, VoteError> {
    let (vaddr, _) = derive_voter_address(&PROGRAM_ID, TITLE, &USER_KEY).unwrap();
    let voter_acc = account(vaddr, vec![0u8; 32], false, true, vec![]);
    let accounts = vec![user_account(), poll_account(), voter_acc, system_account()];
    let payload = vote_payload(cast_vote_tag(), true, TITLE);
    process_instruction(&PROGRAM_ID, &accounts, &payload, now)
}

fn update_vote_at(now: u32) -> Result<Effect, VoteError> {
    let accounts = vec![user_account(), poll_account(), voter_account(true, 1500)];
    let payload = vote_payload(update_vote_tag(), false, TITLE);
    process_instruction(&PROGRAM_ID, &accounts, &payload, now)
}

#[test]
fn create_poll_succeeds_and_stores_the_poll() {
    let (addr, bump) = derive_poll_address(&PROGRAM_ID, TITLE).unwrap();
    let pda = account(addr.clone(), vec![0u8; 32], false, true, vec![]);
    let accounts = vec![user_account(), pda, system_account()];
    let payload = create_payload(STARTS_AT, ENDS_AT, TITLE);
    let effect = process_instruction(&PROGRAM_ID, &accounts, &payload, 900).unwrap();

    let expected_record = PollRecord {
        discriminator: poll_record_tag(),
        creator: USER_KEY.to_vec(),
        starts_at: STARTS_AT,
        ends_at: ENDS_AT,
        title: TITLE.to_vec(),
    };
    let expected = Effect::CreateRecord {
        payer: USER_KEY.to_vec(),
        address: addr,
        space: 102,
        namespace: SeedNamespace::Poll,
        seed_title: TITLE.to_vec(),
        seed_voter: None,
        bump,
        data: encode_poll(&expected_record),
    };
    assert_eq!(effect, expected);
}

#[test]
fn cast_vote_succeeds_and_stores_the_voter_record() {
    let (vaddr, vbump) = derive_voter_address(&PROGRAM_ID, TITLE, &USER_KEY).unwrap();
    let voter_acc = account(vaddr.clone(), vec![0u8; 32], false, true, vec![]);
    let accounts = vec![user_account(), poll_account(), voter_acc, system_account()];
    let payload = vote_payload(cast_vote_tag(), true, TITLE);
    let effect = process_instruction(&PROGRAM_ID, &accounts, &payload, 1500).unwrap();
    match effect {
        Effect::CreateRecord {
            payer,
            address,
            space,
            namespace,
            seed_title,
            seed_voter,
            bump,
            data,
        } => {
            assert_eq!(payer, USER_KEY.to_vec());
            assert_eq!(address, vaddr);
            assert_eq!(space, 67);
            assert_eq!(namespace, SeedNamespace::Voter);
            assert_eq!(seed_title, TITLE.to_vec());
            assert_eq!(seed_voter, Some(USER_KEY.to_vec()));
            assert_eq!(bump, vbump);
            let rec = decode_voter(&data).unwrap();
            assert!(rec.vote_status);
            assert_eq!(rec.last_time_voted, 1500);
            assert_eq!(rec.voted_to, TITLE.to_vec());
        }
        Effect::WriteRecord { .. } => panic!("CastVote allocates"),
    }
}

#[test]
fn cast_vote_before_start_fails_voting_not_started() {
    assert_eq!(cast_vote_at(999), Err(VoteError::VotingNotStarted));
    assert_eq!(cast_vote_at(STARTS_AT - 1), Err(VoteError::VotingNotStarted));
}

#[test]
fn cast_vote_closing_bound_is_inclusive() {
    assert!(cast_vote_at(ENDS_AT).is_ok());
    assert_eq!(cast_vote_at(ENDS_AT + 1), Err(VoteError::VotingEnded));
}

#[test]
fn update_vote_succeeds_and_overwrites_in_place() {
    let (vaddr, _) = derive_voter_address(&PROGRAM_ID, TITLE, &USER_KEY).unwrap();
    let effect = update_vote_at(1500).unwrap();
    match effect {
        Effect::WriteRecord { address, data } => {
            assert_eq!(address, vaddr);
            let rec = decode_voter(&data).unwrap();
            assert!(!rec.vote_status);
            assert_eq!(rec.last_time_voted, 1500);
            assert_eq!(rec.voted_to, TITLE.to_vec());
        }
        Effect::CreateRecord { .. } => panic!("UpdateVote reuses the record"),
    }
}

#[test]
fn update_vote_closing_bound_is_strict() {
    assert!(update_vote_at(ENDS_AT - 1).is_ok());
    assert_eq!(update_vote_at(ENDS_AT), Err(VoteError::VotingEnded));
    assert_eq!(update_vote_at(STARTS_AT - 1), Err(VoteError::VotingNotStarted));
}

#[test]
fn create_poll_same_title_targets_same_address() {
    // The host's allocator fails on an occupied address, so the second
    // creation of a poll with an already-used title fails there whatever
    // its other fields hold.
    let (addr, _) = derive_poll_address(&PROGRAM_ID, TITLE).unwrap();
    let pda = account(addr.clone(), vec![0u8; 32], false, true, vec![]);
    let other_user = account([2u8; 32].to_vec(), vec![0u8; 32], true, true, vec![]);
    let accounts = vec![other_user, pda, system_account()];
    let payload = create_payload(5000, 6000, TITLE);
    let effect = process_instruction(&PROGRAM_ID, &accounts, &payload, 4000).unwrap();
    match effect {
        Effect::CreateRecord { address, .. } => assert_eq!(address, addr),
        Effect::WriteRecord { .. } => panic!("CreatePoll allocates"),
    }
}

#[test]
fn create_poll_rejects_past_start() {
    let (addr, _) = derive_poll_address(&PROGRAM_ID, TITLE).unwrap();
    let pda = account(addr, vec![0u8; 32], false, true, vec![]);
    let accounts = vec![user_account(), pda, system_account()];
    let payload = create_payload(STARTS_AT, ENDS_AT, TITLE);
    assert_eq!(
        process_instruction(&PROGRAM_ID, &accounts, &payload, STARTS_AT + 1),
        Err(VoteError::InvalidStartingTime)
    );
}

#[test]
fn create_poll_rejects_bad_windows_and_titles() {
    let run = |starts: u32, ends: u32, title: &[u8], now: u32| {
        let (addr, _) = derive_poll_address(&PROGRAM_ID, title).unwrap();
        let pda = account(addr, vec![0u8; 32], false, true, vec![]);
        let accounts = vec![user_account(), pda, system_account()];
        process_instruction(&PROGRAM_ID, &accounts, &create_payload(starts, ends, title), now)
    };
    assert_eq!(run(1000, 1000, TITLE, 900), Err(VoteError::InvalidEndingTime));
    assert_eq!(run(1000, 999, TITLE, 900), Err(VoteError::InvalidEndingTime));
    assert_eq!(run(1000, 1000 + 1_209_601, TITLE, 900), Err(VoteError::MaxVotingTimeExceeded));
    assert!(run(1000, 1000 + 1_209_600, TITLE, 900).is_ok());
    assert_eq!(run(1000, 2000, b"short", 900), Err(VoteError::TitleInvalidLength));
    assert_eq!(run(1000, 2000, b"ninechars", 900), Err(VoteError::TitleInvalidLength));
}

#[test]
fn create_poll_checks_accounts_first() {
    let (addr, _) = derive_poll_address(&PROGRAM_ID, TITLE).unwrap();
    let payload = create_payload(STARTS_AT, ENDS_AT, TITLE);

    let mut unsigned = user_account();
    unsigned.is_signer = false;
    let accounts = vec![
        unsigned,
        account(addr.clone(), vec![0u8; 32], false, true, vec![]),
        system_account(),
    ];
    assert_eq!(
        process_instruction(&PROGRAM_ID, &accounts, &payload, 900),
        Err(VoteError::UserSigningNeeded)
    );

    let mut frozen_user = user_account();
    frozen_user.is_writable = false;
    let accounts = vec![
        frozen_user,
        account(addr.clone(), vec![0u8; 32], false, true, vec![]),
        system_account(),
    ];
    assert_eq!(
        process_instruction(&PROGRAM_ID, &accounts, &payload, 900),
        Err(VoteError::UsersAccountMustBeMutable)
    );

    let accounts = vec![
        user_account(),
        account(addr.clone(), vec![0u8; 32], false, false, vec![]),
        system_account(),
    ];
    assert_eq!(
        process_instruction(&PROGRAM_ID, &accounts, &payload, 900),
        Err(VoteError::PDAsAccountMustBeMutable)
    );

    let bad_sys = account([9u8; 32].to_vec(), vec![0u8; 32], false, false, vec![]);
    let accounts = vec![
        user_account(),
        account(addr.clone(), vec![0u8; 32], false, true, vec![]),
        bad_sys,
    ];
    assert_eq!(
        process_instruction(&PROGRAM_ID, &accounts, &payload, 900),
        Err(VoteError::InvalidSystemProgram)
    );

    let wrong_pda = account([9u8; 32].to_vec(), vec![0u8; 32], false, true, vec![]);
    let accounts = vec![user_account(), wrong_pda, system_account()];
    assert_eq!(
        process_instruction(&PROGRAM_ID, &accounts, &payload, 900),
        Err(VoteError::InvalidPdaAddress)
    );

    let accounts = vec![user_account(), account(addr, vec![0u8; 32], false, true, vec![])];
    assert_eq!(
        process_instruction(&PROGRAM_ID, &accounts, &payload, 900),
        Err(VoteError::NotEnoughAccounts)
    );
}

#[test]
fn cast_vote_rejects_foreign_or_malformed_poll_account() {
    let (vaddr, _) = derive_voter_address(&PROGRAM_ID, TITLE, &USER_KEY).unwrap();
    let payload = vote_payload(cast_vote_tag(), true, TITLE);

    let mut foreign_poll = poll_account();
    foreign_poll.owner = vec![9u8; 32];
    let accounts = vec![
        user_account(),
        foreign_poll,
        account(vaddr.clone(), vec![0u8; 32], false, true, vec![]),
        system_account(),
    ];
    assert_eq!(
        process_instruction(&PROGRAM_ID, &accounts, &payload, 1500),
        Err(VoteError::InvalidAccountOwner)
    );

    // A poll account whose leading tag is wrong is malformed, whatever
    // follows the tag.
    let mut mistagged_poll = poll_account();
    mistagged_poll.data[0] ^= 0xff;
    let accounts = vec![
        user_account(),
        mistagged_poll,
        account(vaddr.clone(), vec![0u8; 32], false, true, vec![]),
        system_account(),
    ];
    assert_eq!(
        process_instruction(&PROGRAM_ID, &accounts, &payload, 1500),
        Err(VoteError::MalformedAccountData)
    );

    let mut truncated_poll = poll_account();
    truncated_poll.data.truncate(5);
    let accounts = vec![
        user_account(),
        truncated_poll,
        account(vaddr, vec![0u8; 32], false, true, vec![]),
        system_account(),
    ];
    assert_eq!(
        process_instruction(&PROGRAM_ID, &accounts, &payload, 1500),
        Err(VoteError::MalformedAccountData)
    );
}

#[test]
fn update_vote_rejects_short_title_and_foreign_accounts() {
    let payload_short = vote_payload(update_vote_tag(), false, b"short");
    let accounts = vec![user_account(), poll_account(), voter_account(true, 1500)];
    assert_eq!(
        process_instruction(&PROGRAM_ID, &accounts, &payload_short, 1500),
        Err(VoteError::TitleInvalidLength)
    );

    let payload = vote_payload(update_vote_tag(), false, TITLE);
    let mut foreign_voter = voter_account(true, 1500);
    foreign_voter.owner = vec![9u8; 32];
    let accounts = vec![user_account(), poll_account(), foreign_voter];
    assert_eq!(
        process_instruction(&PROGRAM_ID, &accounts, &payload, 1500),
        Err(VoteError::InvalidAccountOwner)
    );

    let mut mistagged_voter = voter_account(true, 1500);
    mistagged_voter.data[0] ^= 0xff;
    let accounts = vec![user_account(), poll_account(), mistagged_voter];
    assert_eq!(
        process_instruction(&PROGRAM_ID, &accounts, &payload, 1500),
        Err(VoteError::MalformedAccountData)
    );
}

#[test]
fn dispatcher_rejects_unknown_and_malformed_instructions() {
    let accounts = vec![user_account(), poll_account(), voter_account(true, 1500)];
    assert_eq!(
        process_instruction(&PROGRAM_ID, &accounts, &[0u8; 8], 1500),
        Err(VoteError::UnrecognizedInstruction)
    );

    // A known operation tag whose payload is truncated.
    let payload = create_poll_tag();
    let (addr, _) = derive_poll_address(&PROGRAM_ID, TITLE).unwrap();
    let accounts = vec![
        user_account(),
        account(addr, vec![0u8; 32], false, true, vec![]),
        system_account(),
    ];
    assert_eq!(
        process_instruction(&PROGRAM_ID, &accounts, &payload, 900),
        Err(VoteError::MalformedInstruction)
    );

    // A payload whose title length prefix claims more bytes than follow.
    let mut overlong = create_payload(STARTS_AT, ENDS_AT, TITLE);
    let len = overlong.len();
    overlong.truncate(len - 1);
    assert_eq!(
        process_instruction(&PROGRAM_ID, &accounts, &overlong, 900),
        Err(VoteError::MalformedInstruction)
    );
}

#[test]
fn cast_vote_needs_four_accounts() {
    let accounts = vec![user_account(), poll_account(), voter_account(true, 1500)];
    let payload = vote_payload(cast_vote_tag(), true, TITLE);
    assert_eq!(
        process_instruction(&PROGRAM_ID, &accounts, &payload, 1500),
        Err(VoteError::NotEnoughAccounts)
    );
}

#[test]
fn vote_payload_with_bad_boolean_byte_is_malformed() {
    let mut payload = vote_payload(cast_vote_tag(), true, TITLE);
    payload[8] = 2;
    let (vaddr, _) = derive_voter_address(&PROGRAM_ID, TITLE, &USER_KEY).unwrap();
    let voter_acc = account(vaddr, vec![0u8; 32], false, true, vec![]);
    let accounts = vec![user_account(), poll_account(), voter_acc, system_account()];
    assert_eq!(
        process_instruction(&PROGRAM_ID, &accounts, &payload, 1500),
        Err(VoteError::MalformedInstruction)
    );
}

#[test]
fn cast_vote_rejects_mismatched_voter_address() {
    let voter_acc = account([9u8; 32].to_vec(), vec![0u8; 32], false, true, vec![]);
    let accounts = vec![user_account(), poll_account(), voter_acc, system_account()];
    let payload = vote_payload(cast_vote_tag(), true, TITLE);
    assert_eq!(
        process_instruction(&PROGRAM_ID, &accounts, &payload, 1500),
        Err(VoteError::InvalidPdaAddress)
    );
}

#[test]
fn stored_poll_record_carries_the_instruction_fields() {
    let stored = stored_poll_bytes();
    let rec = decode_poll(&stored).unwrap();
    assert_eq!(rec.discriminator, poll_record_tag());
    assert_eq!(rec.creator, USER_KEY.to_vec());
    assert_eq!(rec.starts_at, STARTS_AT);
    assert_eq!(rec.ends_at, ENDS_AT);
    assert_eq!(rec.title, TITLE.to_vec());
}
