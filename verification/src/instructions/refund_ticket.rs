use vstd::prelude::*;

use crate::errors::RaffleError;
use crate::state::{has_buyer, same_config, Vault};

verus! {

/// RefundTicket succeeds exactly when the vault is still open by time and
/// the payer holds an entry.
pub open spec fn refund_allowed(v: Vault, payer: u64, now: i64) -> bool {
    &&& now < v.end_time
    &&& has_buyer(v.tickets@, payer)
}

/// The effect of a successful RefundTicket: the payer's entry leaves the
/// registry by swap-with-last, the count goes down by one, the pot down by
/// one ticket price, all else unchanged. Order need not be preserved: the
/// canonical order for selection is computed fresh at finalize time.
pub open spec fn refund_applied(pre: Vault, post: Vault, payer: u64) -> bool {
    &&& (exists|i: int|
        0 <= i < pre.tickets@.len() && pre.tickets@[i].buyer == payer && post.tickets@
            == pre.tickets@.update(i, pre.tickets@.last()).drop_last())
    &&& !has_buyer(post.tickets@, payer)
    &&& post.pot == pre.pot - pre.ticket_price
    &&& post.ticket_count == pre.ticket_count - 1
    &&& same_config(pre, post)
    &&& post.winner == pre.winner
    &&& post.pending_winner == pre.pending_winner
    &&& post.pending_prize == pre.pending_prize
    &&& post.paid_out == pre.paid_out
    &&& post.status == pre.status
}

/// Removes the payer's entry and returns their ticket price.
///
/// On success the runtime transfers one ticket price from vault custody
/// back to the payer, atomically with persisting the updated record; on any
/// failure the record is unchanged and no transfer is owed.
#[verifier::loop_isolation(false)]
pub fn refund_ticket(vault: &mut Vault, payer: u64, now: i64) -> (r: Result<(), RaffleError>)
    requires
        old(vault).wf(),
    ensures
        final(vault).wf(),
        r is Ok <==> refund_allowed(*old(vault), payer, now),
        r is Ok ==> refund_applied(*old(vault), *final(vault), payer),
        r is Err ==> *final(vault) == *old(vault),
        now >= old(vault).end_time ==> r == Err::<(), RaffleError>(RaffleError::VaultClosed),
        now < old(vault).end_time && !has_buyer(old(vault).tickets@, payer) ==> r == Err::<
            (),
            RaffleError,
        >(RaffleError::TicketNotFound),
{
    if now >= vault.end_time {
        return Err(RaffleError::VaultClosed);
    }
    let mut k: usize = 0;
    while k < vault.tickets.len()
        invariant
            k <= vault.tickets@.len(),
            *vault == *old(vault),
            forall|t: int| 0 <= t < k ==> vault.tickets@[t].buyer != payer,
        decreases vault.tickets@.len() - k,
    {
        if vault.tickets[k].buyer == payer {
            // The custody transfer of one ticket price from the vault back
            // to the payer takes place here; the runtime commits it together
            // with the update below, or discards both.
            proof {
                let pre = *old(vault);
                // the pot holds at least one ticket price, so the checked
                // subtractions below cannot fail
                assert(pre.tickets@.len() * pre.ticket_price as int >= pre.ticket_price as int)
                    by (nonlinear_arith)
                    requires
                        pre.tickets@.len() >= 1,
                        pre.ticket_price >= 0,
                ;
                assert((pre.tickets@.len() - 1) * pre.ticket_price as int == pre.tickets@.len()
                    * pre.ticket_price as int - pre.ticket_price as int) by (nonlinear_arith);
            }
            vault.tickets.swap_remove(k);
            let new_count = match vault.ticket_count.checked_sub(1) {
                Some(c) => c,
                None => {
                    return Err(RaffleError::MathOverflow);
                },
            };
            let refund_amount = vault.ticket_price;
            let new_pot = match vault.pot.checked_sub(refund_amount) {
                Some(p) => p,
                None => {
                    return Err(RaffleError::MathOverflow);
                },
            };
            vault.ticket_count = new_count;
            vault.pot = new_pot;
            proof {
                let pre = *old(vault);
                let post = *vault;
                // buyers stay distinct, and the payer is gone
                assert forall|i: int, j: int|
                    0 <= i < j < post.tickets@.len() implies post.tickets@[i].buyer
                    != post.tickets@[j].buyer by {
                    if i == k {
                        assert(post.tickets@[i] == pre.tickets@[pre.tickets@.len() - 1]);
                    }
                    if j == k {
                        assert(post.tickets@[j] == pre.tickets@[pre.tickets@.len() - 1]);
                    }
                }
                assert forall|i: int| 0 <= i < post.tickets@.len() implies post.tickets@[i].buyer
                    != payer by {
                    if i == k {
                        assert(post.tickets@[i] == pre.tickets@[pre.tickets@.len() - 1]);
                    }
                }
            }
            return Ok(());
        }
        k += 1;
    }
    Err(RaffleError::TicketNotFound)
}

} // verus!
