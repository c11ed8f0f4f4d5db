//! The six lifecycle operations of a vault, one module each. Every
//! operation takes the caller identity and, where timing matters, the
//! current time as plain values, validates its preconditions against the
//! record, and either applies its whole effect or returns a typed failure
//! leaving the record unchanged.

pub mod buy_ticket;
pub mod cancel_vault;
pub mod claim_prize;
pub mod initialize;
pub mod payout_winner;
pub mod refund_ticket;
