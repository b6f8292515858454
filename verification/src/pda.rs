//! Deterministic derivation of storage addresses.
//!
//! A record's address is a pure function of a fixed domain separator, one or
//! two variable seed parts, and the program's own identity; alongside the
//! address comes a one-byte disambiguator that must be supplied verbatim when
//! authorizing allocation at that address. A supplied address is never
//! trusted: every handler recomputes the expected address from the
//! instruction's own data and rejects on mismatch.
use vstd::prelude::*;

verus! {

/// Domain separator of poll record addresses.
pub open spec fn poll_namespace() -> Seq<char> {
    "voting_account"@
}

/// Domain separator of voter record addresses.
pub open spec fn voter_namespace() -> Seq<char> {
    "user_vote"@
}

/// The outcome of address derivation for a domain separator, one or two
/// variable seed parts, and a program identity: `None` when no address can
/// be derived (a seed too long for the host's scheme, or the statistically
/// improbable exhaustion of disambiguators), otherwise the 32-byte address
/// and its disambiguator. The outcome is a function of the arguments alone:
/// every derivation on equal inputs yields the same outcome, in every
/// process and on every machine.
pub uninterp spec fn pda_of(
    sep: Seq<char>,
    part1: Seq<u8>,
    part2: Option<Seq<u8>>,
    program_id: Seq<u8>,
) -> Option<(Seq<u8>, u8)>;

/// The mathematical value of a derived address wrapped in `Option`.
pub open spec fn derived_view(r: Option<(Vec<u8>, u8)>) -> Option<(Seq<u8>, u8)> {
    match r {
        Some(p) => Some((p.0@, p.1)),
        None => None,
    }
}

/// The second variable seed part, viewed.
pub open spec fn part2_view(part2: Option<&[u8]>) -> Option<Seq<u8>> {
    match part2 {
        Some(p) => Some(p@),
        None => None,
    }
}

/// Relies on `solana_program::pubkey::Pubkey::try_find_program_address`:
/// off-chain it derives, by repeated sha-256 hashing of the seeds, the
/// program identity and a descending one-byte disambiguator, the first
/// resulting 32-byte value that is no ed25519 curve point — a deterministic,
/// pure function of the seed bytes and the program identity — and returns
/// `None` when every disambiguator fails or a seed exceeds the host's
/// length bound. The seeds handed to it here are the separator's UTF-8
/// bytes followed by the variable parts, in order.
#[verifier::external_body]
fn try_derive(sep: &str, part1: &[u8], part2: Option<&[u8]>, program_id: &[u8]) -> (r: Option<
    (Vec<u8>, u8),
>)
    requires
        program_id@.len() == 32,
    ensures
        derived_view(r) == pda_of(sep@, part1@, part2_view(part2), program_id@),
        r is Some ==> r.unwrap().0@.len() == 32,
{
    let pid = solana_program::pubkey::Pubkey::try_from(program_id).unwrap();
    let found = match part2 {
        Some(p2) => solana_program::pubkey::Pubkey::try_find_program_address(
            &[sep.as_bytes(), part1, p2],
            &pid,
        ),
        None => solana_program::pubkey::Pubkey::try_find_program_address(
            &[sep.as_bytes(), part1],
            &pid,
        ),
    };
    found.map(|(addr, bump)| (addr.to_bytes().to_vec(), bump))
}

/// What [`derive_poll_address`] returns.
pub open spec fn spec_poll_address(title: Seq<u8>, program_id: Seq<u8>) -> Option<(Seq<u8>, u8)> {
    pda_of(poll_namespace(), title, None, program_id)
}

/// What [`derive_voter_address`] returns.
pub open spec fn spec_voter_address(
    title: Seq<u8>,
    voter: Seq<u8>,
    program_id: Seq<u8>,
) -> Option<(Seq<u8>, u8)> {
    pda_of(voter_namespace(), title, Some(voter), program_id)
}

/// Derives the storage address of the poll with the given title, together
/// with its allocation disambiguator.
pub fn derive_poll_address(program_id: &[u8], title: &[u8]) -> (r: Option<(Vec<u8>, u8)>)
    requires
        program_id@.len() == 32,
    ensures
        derived_view(r) == spec_poll_address(title@, program_id@),
        r is Some ==> r.unwrap().0@.len() == 32,
{
    try_derive("voting_account", title, None, program_id)
}

/// Derives the storage address of the given voter's record for the poll
/// with the given title, together with its allocation disambiguator.
pub fn derive_voter_address(program_id: &[u8], title: &[u8], voter: &[u8]) -> (r: Option<
    (Vec<u8>, u8),
>)
    requires
        program_id@.len() == 32,
    ensures
        derived_view(r) == spec_voter_address(title@, voter@, program_id@),
        r is Some ==> r.unwrap().0@.len() == 32,
{
    try_derive("user_vote", title, Some(voter), program_id)
}

} // verus!
