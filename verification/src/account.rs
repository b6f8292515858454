//! The program's picture of one account reference handed in by the host.
//!
//! The host ledger resolves each account named by an invocation and passes
//! the program, per account: its address, its owner, whether the invoking
//! transaction carries its signature, whether it may be written, and a copy
//! of its stored bytes. Signature verification itself is the host's work;
//! here it is only a flag.
use vstd::prelude::*;

verus! {

/// One account reference, as plain values.
#[derive(Debug, Clone, PartialEq, Eq)]
pub struct Account {
    /// The account's address (a 32-byte key of the external store).
    pub key: Vec<u8>,
    /// The program that owns the account's stored bytes.
    pub owner: Vec<u8>,
    /// Whether the invoking transaction carries this account's signature.
    pub is_signer: bool,
    /// Whether the host lets this invocation write the account.
    pub is_writable: bool,
    /// The account's stored bytes.
    pub data: Vec<u8>,
}

} // verus!
