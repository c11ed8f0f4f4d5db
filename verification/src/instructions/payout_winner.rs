use vstd::prelude::*;

use crate::errors::RaffleError;
use vstd::seq_lib::to_multiset_len;

use crate::selector::{sorted_entries, spec_winner, spec_winner_index};
use crate::state::{same_config, Vault, VaultStatus};

verus! {

/// FinalizePayout succeeds exactly when the authority calls it at or after
/// the end time, on a vault that has entries and has neither paid out nor
/// already chosen a winner.
pub open spec fn finalize_allowed(v: Vault, caller: u64, now: i64) -> bool {
    &&& caller == v.authority
    &&& now >= v.end_time
    &&& v.ticket_count > 0
    &&& !v.paid_out
    &&& v.pending_winner is None
}

/// The effect of a successful FinalizePayout: the vault commits to the
/// deterministically selected winner and to the whole pot as the owed
/// prize; no funds move and the registry stays intact.
pub open spec fn finalize_applied(pre: Vault, post: Vault, now: i64) -> bool {
    &&& post.pending_winner == Some(spec_winner(pre.tickets@, now))
    &&& post.winner == spec_winner(pre.tickets@, now)
    &&& post.pending_prize == pre.pot
    &&& post.status == VaultStatus::Finished
    &&& post.tickets@ == pre.tickets@
    &&& post.pot == pre.pot
    &&& post.ticket_count == pre.ticket_count
    &&& post.paid_out == pre.paid_out
    &&& same_config(pre, post)
}

/// Selects the winner and commits the owed prize, without moving funds.
///
/// The winner is the entry at index `time_seed(now) % len` of the registry
/// sorted into canonical order (purchase time ascending, buyer ascending as
/// tie-break), so the choice depends only on the registry contents and the
/// current time. The operation can succeed at most once per vault: success
/// leaves a pending winner, which the preconditions then reject.
pub fn payout_finalize(vault: &mut Vault, caller: u64, now: i64) -> (r: Result<(), RaffleError>)
    requires
        old(vault).wf(),
    ensures
        final(vault).wf(),
        r is Ok <==> finalize_allowed(*old(vault), caller, now),
        r is Ok ==> finalize_applied(*old(vault), *final(vault), now),
        r is Err ==> *final(vault) == *old(vault),
        caller != old(vault).authority ==> r == Err::<(), RaffleError>(
            RaffleError::UnauthorizedFinalize,
        ),
        caller == old(vault).authority && now < old(vault).end_time ==> r == Err::<
            (),
            RaffleError,
        >(RaffleError::VaultStillRunning),
        caller == old(vault).authority && now >= old(vault).end_time && old(vault).ticket_count
            == 0 ==> r == Err::<(), RaffleError>(RaffleError::NoTicketsSold),
        caller == old(vault).authority && now >= old(vault).end_time && old(vault).ticket_count > 0
            && old(vault).paid_out ==> r == Err::<(), RaffleError>(RaffleError::PrizeAlreadyClaimed),
        caller == old(vault).authority && now >= old(vault).end_time && old(vault).ticket_count > 0
            && !old(vault).paid_out && old(vault).pending_winner is Some ==> r == Err::<
            (),
            RaffleError,
        >(RaffleError::WinnerAlreadyChosen),
{
    if caller != vault.authority {
        return Err(RaffleError::UnauthorizedFinalize);
    }
    if now < vault.end_time {
        return Err(RaffleError::VaultStillRunning);
    }
    if vault.ticket_count == 0 {
        return Err(RaffleError::NoTicketsSold);
    }
    if vault.paid_out {
        return Err(RaffleError::PrizeAlreadyClaimed);
    }
    if vault.pending_winner.is_some() {
        return Err(RaffleError::WinnerAlreadyChosen);
    }
    let seed: u64 = #[verifier::truncate] (now as u64);
    let ordered = sorted_entries(&vault.tickets);
    proof {
        to_multiset_len(vault.tickets@);
        to_multiset_len(ordered@);
        crate::selector::lemma_entry_order_total();
        vault.tickets@.lemma_sort_by_ensures(crate::selector::entry_order());
        assert(ordered@.len() == vault.tickets@.len());
    }
    let idx: usize = (seed % (ordered.len() as u64)) as usize;
    let winner_key = ordered[idx].buyer;
    vault.pending_winner = Some(winner_key);
    vault.pending_prize = vault.pot;
    vault.status = VaultStatus::Finished;
    vault.winner = winner_key;
    proof {
        let pre = *old(vault);
        assert(idx as int == spec_winner_index(pre.tickets@.len() as int, now));
        assert(winner_key == spec_winner(pre.tickets@, now));
    }
    Ok(())
}

} // verus!
