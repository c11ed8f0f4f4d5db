use vstd::prelude::*;

use crate::errors::RaffleError;
use crate::state::{same_config, Vault};

verus! {

/// ClaimPrize succeeds exactly when a winner is pending, the caller is that
/// winner, a positive prize is owed, and the custody balance covers it.
pub open spec fn claim_allowed(v: Vault, caller: u64, vault_balance: u64) -> bool {
    &&& v.pending_winner is Some
    &&& v.pending_winner == Some(caller)
    &&& v.pending_prize > 0
    &&& vault_balance >= v.pending_prize
}

/// The effect of a successful ClaimPrize: the sale state is reset — pot,
/// owed prize, pending winner, count and registry all cleared — and the
/// payout is recorded as done. The last winner and the status remain.
pub open spec fn claim_applied(pre: Vault, post: Vault) -> bool {
    &&& post.pot == 0
    &&& post.pending_prize == 0
    &&& post.pending_winner is None
    &&& post.paid_out == true
    &&& post.ticket_count == 0
    &&& post.tickets@.len() == 0
    &&& post.winner == pre.winner
    &&& post.status == pre.status
    &&& same_config(pre, post)
}

/// Pays the pending prize to the winner and resets the sale state.
///
/// On success the runtime transfers the owed prize (`pending_prize` of the
/// old record) from vault custody to the caller before the reset below is
/// durable; a retried claim then fails cleanly on the missing pending
/// winner rather than paying twice. `vault_balance` is the custody balance
/// the runtime observes; a balance short of the owed prize is rejected as a
/// defensive consistency check.
pub fn claim_prize(vault: &mut Vault, caller: u64, vault_balance: u64) -> (r: Result<
    (),
    RaffleError,
>)
    requires
        old(vault).wf(),
    ensures
        final(vault).wf(),
        r is Ok <==> claim_allowed(*old(vault), caller, vault_balance),
        r is Ok ==> claim_applied(*old(vault), *final(vault)),
        r is Err ==> *final(vault) == *old(vault),
        old(vault).pending_winner is None ==> r == Err::<(), RaffleError>(
            RaffleError::NoPendingWinner,
        ),
        old(vault).pending_winner is Some && old(vault).pending_winner != Some(caller) ==> r
            == Err::<(), RaffleError>(RaffleError::UnauthorizedClaim),
        old(vault).pending_winner == Some(caller) && old(vault).pending_prize == 0 ==> r == Err::<
            (),
            RaffleError,
        >(RaffleError::NothingToPayout),
        old(vault).pending_winner == Some(caller) && old(vault).pending_prize > 0 && vault_balance
            < old(vault).pending_prize ==> r == Err::<(), RaffleError>(RaffleError::NothingToPayout),
{
    let pending = match vault.pending_winner {
        Some(w) => w,
        None => {
            return Err(RaffleError::NoPendingWinner);
        },
    };
    if pending != caller {
        return Err(RaffleError::UnauthorizedClaim);
    }
    if vault.pending_prize == 0 {
        return Err(RaffleError::NothingToPayout);
    }
    if vault_balance < vault.pending_prize {
        return Err(RaffleError::NothingToPayout);
    }
    // The custody transfer of the owed prize from the vault to the winner
    // takes place here; the runtime commits it together with the reset
    // below, or discards both.
    vault.pot = 0;
    vault.pending_prize = 0;
    vault.pending_winner = None;
    vault.paid_out = true;
    vault.ticket_count = 0;
    vault.tickets.clear();
    Ok(())
}

} // verus!
