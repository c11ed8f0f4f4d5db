use vstd::prelude::*;

use crate::errors::RaffleError;
use crate::state::Vault;

verus! {

/// Cancel succeeds exactly when the authority calls it on a pristine vault:
/// no active entries and no custodied funds.
pub open spec fn cancel_allowed(v: Vault, caller: u64) -> bool {
    &&& caller == v.authority
    &&& v.ticket_count == 0
    &&& v.pot == 0
}

/// Approves the destruction of an empty, unused vault.
///
/// On success the runtime destroys the record and returns any residual
/// custody balance (the storage deposit) to the authority. There is no
/// partial cancellation: a vault with outstanding tickets or funds is
/// rejected.
pub fn cancel_vault(vault: &Vault, caller: u64) -> (r: Result<(), RaffleError>)
    ensures
        r is Ok <==> cancel_allowed(*vault, caller),
        caller != vault.authority ==> r == Err::<(), RaffleError>(RaffleError::Unauthorized),
        caller == vault.authority && (vault.ticket_count != 0 || vault.pot != 0) ==> r == Err::<
            (),
            RaffleError,
        >(RaffleError::TicketsOutstanding),
{
    if caller != vault.authority {
        return Err(RaffleError::Unauthorized);
    }
    if vault.ticket_count != 0 {
        return Err(RaffleError::TicketsOutstanding);
    }
    if vault.pot != 0 {
        return Err(RaffleError::TicketsOutstanding);
    }
    Ok(())
}

} // verus!
