//! What a successful operation asks the host to do.
//!
//! The program itself persists nothing: validation precedes all mutation, and
//! a successful invocation ends in exactly one effect that the host applies
//! atomically. Failure at any earlier step aborts the invocation with no
//! persisted change.
use vstd::prelude::*;

use crate::pda::{poll_namespace, voter_namespace};

verus! {

/// The derivation namespace a created record's address came from.
#[derive(Debug, Clone, Copy, PartialEq, Eq, Structural)]
pub enum SeedNamespace {
    /// Poll records: separated by [`poll_namespace`].
    Poll,
    /// Voter records: separated by [`voter_namespace`].
    Voter,
}

/// The domain separator of a namespace.
pub open spec fn namespace_seq(ns: SeedNamespace) -> Seq<char> {
    match ns {
        SeedNamespace::Poll => poll_namespace(),
        SeedNamespace::Voter => voter_namespace(),
    }
}

/// The domain separator of a namespace, as the host takes it.
pub fn namespace_label(ns: SeedNamespace) -> (r: &'static str)
    ensures
        r@ == namespace_seq(ns),
{
    match ns {
        SeedNamespace::Poll => "voting_account",
        SeedNamespace::Voter => "user_vote",
    }
}

/// One effect for the host to apply.
///
/// For `CreateRecord` the host allocates a zero-initialized record of
/// `space` bytes at `address`, funded by `payer` with the minimum retained
/// balance for that width and owned by this program, authorizing the
/// allocation with the derivation seeds — the namespace's separator, the
/// seed parts, and the disambiguator `bump` verbatim — and then writes
/// `data` at the record's start. The allocation fails if the address is
/// already occupied; that collision is the sole uniqueness check.
///
/// For `WriteRecord` the record at `address` already exists and the host
/// overwrites its first bytes with `data` in place.
#[derive(Debug, Clone, PartialEq, Eq)]
pub enum Effect {
    CreateRecord {
        payer: Vec<u8>,
        address: Vec<u8>,
        space: u64,
        namespace: SeedNamespace,
        seed_title: Vec<u8>,
        seed_voter: Option<Vec<u8>>,
        bump: u8,
        data: Vec<u8>,
    },
    WriteRecord { address: Vec<u8>, data: Vec<u8> },
}

/// The mathematical value of an [`Effect`].
#[verifier::ext_equal]
pub enum EffectModel {
    CreateRecord {
        payer: Seq<u8>,
        address: Seq<u8>,
        space: u64,
        namespace: Seq<char>,
        seed_title: Seq<u8>,
        seed_voter: Option<Seq<u8>>,
        bump: u8,
        data: Seq<u8>,
    },
    WriteRecord { address: Seq<u8>, data: Seq<u8> },
}

impl View for Effect {
    type V = EffectModel;

    open spec fn view(&self) -> EffectModel {
        match self {
            Effect::CreateRecord {
                payer,
                address,
                space,
                namespace,
                seed_title,
                seed_voter,
                bump,
                data,
            } => (EffectModel::CreateRecord {
                payer: payer@,
                address: address@,
                space: *space,
                namespace: namespace_seq(*namespace),
                seed_title: seed_title@,
                seed_voter: match seed_voter {
                    Some(v) => Some(v@),
                    None => None,
                },
                bump: *bump,
                data: data@,
            }),
            Effect::WriteRecord { address, data } => (EffectModel::WriteRecord {
                address: address@,
                data: data@,
            }),
        }
    }
}

/// The storage address an effect touches.
pub open spec fn effect_address(e: EffectModel) -> Seq<u8> {
    match e {
        EffectModel::CreateRecord { address, .. } => address,
        EffectModel::WriteRecord { address, .. } => address,
    }
}

/// The bytes an effect writes.
pub open spec fn effect_data(e: EffectModel) -> Seq<u8> {
    match e {
        EffectModel::CreateRecord { data, .. } => data,
        EffectModel::WriteRecord { data, .. } => data,
    }
}

/// The mathematical value of a handler's result.
pub open spec fn effect_result_view(r: Result<Effect, crate::errors::VoteError>) -> Result<
    EffectModel,
    crate::errors::VoteError,
> {
    match r {
        Ok(e) => Ok(e@),
        Err(x) => Err(x),
    }
}

} // verus!
