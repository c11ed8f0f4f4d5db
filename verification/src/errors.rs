use vstd::prelude::*;

verus! {

/// The failure taxonomy of the raffle lifecycle operations.
///
/// Every precondition violation is detected before any mutation and surfaces
/// as one of these values; no operation ever persists partial state.
#[derive(Clone, Copy, Debug, PartialEq, Eq, Structural)]
pub enum RaffleError {
    /// Initialize was given a ticket price of zero.
    InvalidTicketPrice,
    /// Initialize was given a non-positive duration.
    InvalidDuration,
    /// BuyTicket or RefundTicket attempted at or after the vault's end time.
    VaultClosed,
    /// FinalizePayout attempted before the vault's end time.
    VaultStillRunning,
    /// BuyTicket attempted on a vault at its entry capacity.
    MaxTicketsReached,
    /// RefundTicket by an identity with no entry in the registry.
    TicketNotFound,
    /// FinalizePayout attempted on an empty registry.
    NoTicketsSold,
    /// Checked arithmetic on the pot or the ticket count left the
    /// representable range.
    MathOverflow,
    /// Cancel attempted by an identity other than the vault authority.
    Unauthorized,
    /// Cancel attempted while tickets or funds are still outstanding.
    TicketsOutstanding,
    /// BuyTicket by an identity already present in the registry.
    AlreadyEntered,
    /// FinalizePayout attempted after the prize was already paid out.
    PrizeAlreadyClaimed,
    /// FinalizePayout attempted while a winner is already pending.
    WinnerAlreadyChosen,
    /// ClaimPrize attempted while no winner is pending.
    NoPendingWinner,
    /// ClaimPrize attempted by an identity other than the pending winner.
    UnauthorizedClaim,
    /// ClaimPrize attempted with no prize owed, or with a custody balance
    /// short of the owed amount.
    NothingToPayout,
    /// FinalizePayout attempted by an identity other than the vault
    /// authority.
    UnauthorizedFinalize,
}

} // verus!
