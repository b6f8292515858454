//! A ledger-resident voting program: a deterministic state machine that
//! creates polls, records votes, and updates votes, operating over externally
//! persisted keyed records.
//!
//! All persistent state lives in an external keyed store (the host ledger).
//! This library is the decision core: it validates an incoming instruction
//! against the supplied account material and either returns the effect the
//! host must apply (allocate a record, write bytes) or the error that aborts
//! the invocation.
pub mod account;
pub mod bytes_util;
pub mod dispatch;
pub mod effects;
pub mod errors;
pub mod handlers;
pub mod instructions;
pub mod laws;
pub mod pda;
pub mod records;
pub mod tags;
