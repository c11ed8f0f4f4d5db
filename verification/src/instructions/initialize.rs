use vstd::prelude::*;

use crate::errors::RaffleError;
use crate::state::{Vault, VaultStatus, DEFAULT_DURATION_SECONDS, MAX_TICKETS};

verus! {

/// The duration the vault will run: the caller's, or the default when the
/// caller gives none.
pub open spec fn effective_duration(duration_seconds: Option<i64>) -> i64 {
    match duration_seconds {
        Some(d) => d,
        None => DEFAULT_DURATION_SECONDS,
    }
}

/// The entry cap the vault will use: the requested cap clamped into
/// `[1, MAX_TICKETS]`.
pub open spec fn clamped_max_tickets(requested: u32) -> u32 {
    if requested < 1 {
        1
    } else if requested > MAX_TICKETS as u32 {
        MAX_TICKETS as u32
    } else {
        requested
    }
}

/// Creation arguments of a raffle.
#[derive(Clone, Copy, Debug)]
pub struct InitializeArgs {
    pub ticket_price: u64,
    pub max_tickets: u32,
    pub duration_seconds: Option<i64>,
}

/// The record Initialize creates for `authority` at time `now`: an open,
/// empty, zeroed vault whose entry window ends `effective_duration` after
/// `now`.
pub open spec fn initialized(v: Vault, authority: u64, args: InitializeArgs, now: i64) -> bool {
    &&& v.authority == authority
    &&& v.pot == 0
    &&& v.ticket_price == args.ticket_price
    &&& v.max_tickets == clamped_max_tickets(args.max_tickets)
    &&& v.ticket_count == 0
    &&& v.end_time == now + effective_duration(args.duration_seconds)
    &&& v.winner == 0
    &&& v.tickets@.len() == 0
    &&& v.pending_winner is None
    &&& v.pending_prize == 0
    &&& v.paid_out == false
    &&& v.status == VaultStatus::Open
}

/// Creates a vault bound to the calling authority at the current time.
/// Fails only on invalid arguments; performs no custody transfer.
pub fn initialize_vault(authority: u64, args: InitializeArgs, now: i64) -> (r: Result<
    Vault,
    RaffleError,
>)
    requires
        args.ticket_price > 0 && effective_duration(args.duration_seconds) > 0 ==> now
            + effective_duration(args.duration_seconds) <= i64::MAX,
    ensures
        r is Ok <==> args.ticket_price > 0 && effective_duration(args.duration_seconds) > 0,
        args.ticket_price == 0 ==> r == Err::<Vault, RaffleError>(RaffleError::InvalidTicketPrice),
        args.ticket_price > 0 && effective_duration(args.duration_seconds) <= 0 ==> r == Err::<
            Vault,
            RaffleError,
        >(RaffleError::InvalidDuration),
        r matches Ok(v) ==> initialized(v, authority, args, now) && v.wf(),
{
    if args.ticket_price == 0 {
        return Err(RaffleError::InvalidTicketPrice);
    }
    let duration: i64 = match args.duration_seconds {
        Some(d) => d,
        None => DEFAULT_DURATION_SECONDS,
    };
    if duration <= 0 {
        return Err(RaffleError::InvalidDuration);
    }
    let max_tickets: u32 = if args.max_tickets < 1 {
        1
    } else if args.max_tickets > MAX_TICKETS as u32 {
        MAX_TICKETS as u32
    } else {
        args.max_tickets
    };
    Ok(
        Vault {
            authority,
            pot: 0,
            ticket_price: args.ticket_price,
            max_tickets,
            ticket_count: 0,
            end_time: now + duration,
            winner: 0,
            tickets: Vec::new(),
            pending_winner: None,
            pending_prize: 0,
            paid_out: false,
            status: VaultStatus::Open,
        },
    )
}

} // verus!
