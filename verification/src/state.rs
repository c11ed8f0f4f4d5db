use vstd::prelude::*;

verus! {

/// Default raffle duration, in time units, when the creator supplies none.
pub const DEFAULT_DURATION_SECONDS: i64 = 60 * 60;

/// Fixed implementation ceiling on the number of entries one vault can hold;
/// the persisted record reserves capacity for exactly this many entries.
pub const MAX_TICKETS: usize = 128;

/// One recorded ticket purchase: an identity bound to one chance of winning.
///
/// Identities are plain ordered 64-bit values; equality decides duplicate
/// entries and authorization, and the order is the tie-break of the winner
/// selection. The surrounding runtime maps whatever identity primitive it
/// uses onto these values.
#[derive(Clone, Copy, Debug, PartialEq, Eq, Structural)]
pub struct TicketEntry {
    pub buyer: u64,
    pub purchased_at: i64,
}

/// Informational lifecycle marker of a vault. `Finished` is set once a
/// winner has been chosen; the operations themselves are guarded by time and
/// by the winner-selection fields, not by this marker.
#[derive(Clone, Copy, Debug, PartialEq, Eq, Structural)]
pub enum VaultStatus {
    Open,
    Closed,
    Finished,
}

/// The persistent state of one raffle instance: pool accounting, the entry
/// registry, timing, and the winner-selection results.
#[derive(Clone, Debug, PartialEq, Eq)]
pub struct Vault {
    /// Creator and administrator; only this identity may finalize or cancel.
    pub authority: u64,
    /// Total funds currently custodied for this raffle.
    pub pot: u64,
    /// Fixed cost per entry; positive, fixed at creation.
    pub ticket_price: u64,
    /// Cap on entries, clamped to `[1, MAX_TICKETS]` at creation.
    pub max_tickets: u32,
    /// Number of active entries; always equals the registry length.
    pub ticket_count: u32,
    /// Entries and refunds are permitted only while `now < end_time`.
    pub end_time: i64,
    /// Last finalized winner, retained even after payout; defaults to zero.
    pub winner: u64,
    /// The entry registry, bounded by `MAX_TICKETS`.
    pub tickets: Vec<TicketEntry>,
    /// Winner awaiting claim; set by finalize, cleared by claim.
    pub pending_winner: Option<u64>,
    /// Amount owed to the pending winner; set by finalize, cleared by claim.
    pub pending_prize: u64,
    /// True once the pending prize has been paid exactly once.
    pub paid_out: bool,
    /// Informational lifecycle marker.
    pub status: VaultStatus,
}

/// No buyer identity appears twice in the registry.
pub open spec fn distinct_buyers(s: Seq<TicketEntry>) -> bool {
    forall|i: int, j: int| 0 <= i < j < s.len() ==> s[i].buyer != s[j].buyer
}

/// Some entry of the registry belongs to buyer `b`.
pub open spec fn has_buyer(s: Seq<TicketEntry>, b: u64) -> bool {
    exists|i: int| 0 <= i < s.len() && s[i].buyer == b
}

impl Vault {
    /// Well-formedness of a vault record. Initialize establishes it and
    /// every operation preserves it: the count mirrors the registry length,
    /// the registry respects both caps, buyers are distinct, the pot is
    /// exactly the ticket price per active entry, and a pending winner is
    /// only ever held by a finished vault.
    pub open spec fn wf(self) -> bool {
        &&& self.ticket_count as int == self.tickets@.len()
        &&& self.tickets@.len() <= self.max_tickets as int
        &&& 1 <= self.max_tickets as int <= MAX_TICKETS as int
        &&& self.ticket_price > 0
        &&& self.pot as int == self.tickets@.len() * self.ticket_price as int
        &&& distinct_buyers(self.tickets@)
        &&& (self.pending_winner.is_some() ==> self.status == VaultStatus::Finished)
    }
}

/// The fields no lifecycle operation after creation ever changes.
pub open spec fn same_config(pre: Vault, post: Vault) -> bool {
    &&& post.authority == pre.authority
    &&& post.ticket_price == pre.ticket_price
    &&& post.max_tickets == pre.max_tickets
    &&& post.end_time == pre.end_time
}

} // verus!
