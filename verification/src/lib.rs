//! A single-winner raffle backed by pooled funds held in a custodial vault.
//!
//! The crate is the vault state machine: a persistent [`state::Vault`] record
//! and six lifecycle operations (initialize, buy ticket, refund ticket,
//! finalize payout, claim prize, cancel). Each operation validates its
//! preconditions against the current ledger state and the caller-supplied
//! current time, then atomically mutates the record or returns a typed
//! failure, leaving the record untouched.
//!
//! Fund custody, identity proofs and the time source are external
//! collaborators: operations take the current time and the caller identity as
//! plain values, and the surrounding runtime performs the one custody
//! transfer each operation mandates, atomically with persisting the updated
//! record.

pub mod errors;
pub mod instructions;
pub mod laws;
pub mod selector;
pub mod state;
