//! Cross-operation guarantees of the vault state machine, stated over the
//! same spec predicates the operations' own contracts use.

use vstd::prelude::*;

use crate::instructions::buy_ticket::buy_applied;
use crate::instructions::claim_prize::{claim_allowed, claim_applied};
use crate::instructions::payout_winner::{finalize_allowed, finalize_applied};
use crate::instructions::refund_ticket::refund_applied;
use crate::state::Vault;

verus! {

/// Ticket accounting: a successful purchase keeps the active count equal to
/// the registry length and the pot equal to one ticket price per entry.
/// `buy_ticket` carries well-formedness from state to state, so this step
/// covers every sequence of successful purchases.
pub proof fn lemma_buy_keeps_accounting(pre: Vault, post: Vault, buyer: u64, now: i64)
    requires
        pre.wf(),
        buy_applied(pre, post, buyer, now),
    ensures
        post.ticket_count as int == post.tickets@.len(),
        post.pot as int == post.ticket_count * post.ticket_price as int,
{
    assert((pre.tickets@.len() + 1) * pre.ticket_price as int == pre.tickets@.len()
        * pre.ticket_price as int + pre.ticket_price as int) by (nonlinear_arith);
}

/// Refund round-trip: refunding an entry and then buying again from the
/// same identity restores the pot, the ticket count and the registry length
/// exactly.
pub proof fn lemma_refund_then_buy_restores_accounting(
    v0: Vault,
    v1: Vault,
    v2: Vault,
    payer: u64,
    now: i64,
)
    requires
        refund_applied(v0, v1, payer),
        buy_applied(v1, v2, payer, now),
    ensures
        v2.pot == v0.pot,
        v2.ticket_count == v0.ticket_count,
        v2.tickets@.len() == v0.tickets@.len(),
{
}

/// A winner is chosen at most once: after a successful finalize no later
/// finalize can succeed, whoever calls it and whenever.
pub proof fn lemma_finalize_at_most_once(pre: Vault, post: Vault, now: i64)
    requires
        finalize_applied(pre, post, now),
    ensures
        forall|caller: u64, later: i64| !finalize_allowed(post, caller, later),
{
}

/// The prize is paid at most once: after a successful claim the vault holds
/// no pending winner, so a repeated claim fails on that precondition.
pub proof fn lemma_claim_at_most_once(pre: Vault, post: Vault)
    requires
        claim_applied(pre, post),
    ensures
        forall|caller: u64, balance: u64| !claim_allowed(post, caller, balance),
{
}

} // verus!
