use vstd::prelude::*;

use crate::errors::RaffleError;
use crate::state::{has_buyer, same_config, TicketEntry, Vault, MAX_TICKETS};

verus! {

/// BuyTicket succeeds exactly when the vault is still open by time, below
/// both entry caps, the buyer has no entry yet, and the pot can absorb one
/// more ticket price.
pub open spec fn buy_allowed(v: Vault, buyer: u64, now: i64) -> bool {
    &&& now < v.end_time
    &&& v.ticket_count < v.max_tickets
    &&& v.tickets@.len() < MAX_TICKETS as int
    &&& !has_buyer(v.tickets@, buyer)
    &&& v.pot + v.ticket_price <= u64::MAX
}

/// The effect of a successful BuyTicket: one entry appended at `now`, the
/// count up by one, the pot up by one ticket price, all else unchanged.
pub open spec fn buy_applied(pre: Vault, post: Vault, buyer: u64, now: i64) -> bool {
    &&& post.tickets@ == pre.tickets@.push(TicketEntry { buyer, purchased_at: now })
    &&& post.pot == pre.pot + pre.ticket_price
    &&& post.ticket_count == pre.ticket_count + 1
    &&& same_config(pre, post)
    &&& post.winner == pre.winner
    &&& post.pending_winner == pre.pending_winner
    &&& post.pending_prize == pre.pending_prize
    &&& post.paid_out == pre.paid_out
    &&& post.status == pre.status
}

/// Records one ticket purchase by `buyer` at time `now`.
///
/// On success the runtime transfers one ticket price from the buyer into
/// vault custody, atomically with persisting the updated record; on any
/// failure the record is unchanged and no transfer is owed.
#[verifier::loop_isolation(false)]
pub fn buy_ticket(vault: &mut Vault, buyer: u64, now: i64) -> (r: Result<(), RaffleError>)
    requires
        old(vault).wf(),
    ensures
        final(vault).wf(),
        r is Ok <==> buy_allowed(*old(vault), buyer, now),
        r is Ok ==> buy_applied(*old(vault), *final(vault), buyer, now),
        r is Err ==> *final(vault) == *old(vault),
        now >= old(vault).end_time ==> r == Err::<(), RaffleError>(RaffleError::VaultClosed),
        now < old(vault).end_time && (old(vault).ticket_count >= old(vault).max_tickets || old(
            vault,
        ).tickets@.len() >= MAX_TICKETS as int) ==> r == Err::<(), RaffleError>(
            RaffleError::MaxTicketsReached,
        ),
        now < old(vault).end_time && old(vault).ticket_count < old(vault).max_tickets && old(
            vault,
        ).tickets@.len() < MAX_TICKETS as int && has_buyer(old(vault).tickets@, buyer) ==> r
            == Err::<(), RaffleError>(RaffleError::AlreadyEntered),
        now < old(vault).end_time && old(vault).ticket_count < old(vault).max_tickets && old(
            vault,
        ).tickets@.len() < MAX_TICKETS as int && !has_buyer(old(vault).tickets@, buyer) && old(
            vault,
        ).pot + old(vault).ticket_price > u64::MAX ==> r == Err::<(), RaffleError>(
            RaffleError::MathOverflow,
        ),
{
    if now >= vault.end_time {
        return Err(RaffleError::VaultClosed);
    }
    if vault.ticket_count >= vault.max_tickets {
        return Err(RaffleError::MaxTicketsReached);
    }
    if vault.tickets.len() >= MAX_TICKETS {
        return Err(RaffleError::MaxTicketsReached);
    }
    let mut k: usize = 0;
    while k < vault.tickets.len()
        invariant
            k <= vault.tickets@.len(),
            forall|t: int| 0 <= t < k ==> vault.tickets@[t].buyer != buyer,
        decreases vault.tickets@.len() - k,
    {
        if vault.tickets[k].buyer == buyer {
            return Err(RaffleError::AlreadyEntered);
        }
        k += 1;
    }
    // The custody transfer of one ticket price from the buyer to the vault
    // takes place here; the runtime commits it together with the update
    // below, or discards both.
    let new_pot = match vault.pot.checked_add(vault.ticket_price) {
        Some(p) => p,
        None => {
            return Err(RaffleError::MathOverflow);
        },
    };
    let new_count = match vault.ticket_count.checked_add(1) {
        Some(c) => c,
        None => {
            return Err(RaffleError::MathOverflow);
        },
    };
    vault.pot = new_pot;
    vault.ticket_count = new_count;
    vault.tickets.push(TicketEntry { buyer, purchased_at: now });
    proof {
        let pre = *old(vault);
        let post = *vault;
        assert forall|i: int, j: int| 0 <= i < j < post.tickets@.len() implies post.tickets@[i].buyer
            != post.tickets@[j].buyer by {
            if j == post.tickets@.len() - 1 {
                assert(pre.tickets@[i].buyer != buyer);
            }
        }
        assert((pre.tickets@.len() + 1) * pre.ticket_price as int == pre.tickets@.len()
            * pre.ticket_price as int + pre.ticket_price as int) by (nonlinear_arith);
    }
    Ok(())
}

} // verus!
