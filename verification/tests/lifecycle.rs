use raffle_vault::errors::RaffleError;
use raffle_vault::instructions::buy_ticket::buy_ticket;
use raffle_vault::instructions::cancel_vault::cancel_vault;
use raffle_vault::instructions::claim_prize::claim_prize;
use raffle_vault::instructions::initialize::{initialize_vault, InitializeArgs};
use raffle_vault::instructions::payout_winner::payout_finalize;
use raffle_vault::instructions::refund_ticket::refund_ticket;
use raffle_vault::state::{Vault, VaultStatus, DEFAULT_DURATION_SECONDS, MAX_TICKETS};

const AUTHORITY: u64 = 7;

fn setup(ticket_price: u64, max_tickets: u32, duration: Option<i64>, now: i64) -> Vault {
    let args = InitializeArgs {
        ticket_price,
        max_tickets,
        duration_seconds: duration,
    };
    initialize_vault(AUTHORITY, args, now).expect("creation arguments are valid")
}

#[test]
fn initialize_creates_open_empty_vault() {
    let v = setup(100, 3, Some(1000), 0);
    assert_eq!(v.authority, AUTHORITY);
    assert_eq!(v.pot, 0);
    assert_eq!(v.ticket_price, 100);
    assert_eq!(v.max_tickets, 3);
    assert_eq!(v.ticket_count, 0);
    assert_eq!(v.end_time, 1000);
    assert_eq!(v.winner, 0);
    assert!(v.tickets.is_empty());
    assert_eq!(v.pending_winner, None);
    assert_eq!(v.pending_prize, 0);
    assert!(!v.paid_out);
    assert_eq!(v.status, VaultStatus::Open);
}

#[test]
fn initialize_rejects_zero_price() {
    let args = InitializeArgs {
        ticket_price: 0,
        max_tickets: 3,
        duration_seconds: Some(1000),
    };
    assert_eq!(
        initialize_vault(AUTHORITY, args, 0),
        Err(RaffleError::InvalidTicketPrice)
    );
}

#[test]
fn initialize_rejects_non_positive_duration() {
    let zero = InitializeArgs {
        ticket_price: 100,
        max_tickets: 3,
        duration_seconds: Some(0),
    };
    assert_eq!(
        initialize_vault(AUTHORITY, zero, 0),
        Err(RaffleError::InvalidDuration)
    );
    let negative = InitializeArgs {
        ticket_price: 100,
        max_tickets: 3,
        duration_seconds: Some(-5),
    };
    assert_eq!(
        initialize_vault(AUTHORITY, negative, 0),
        Err(RaffleError::InvalidDuration)
    );
}

#[test]
fn initialize_uses_default_duration() {
    let v = setup(100, 3, None, 50);
    assert_eq!(v.end_time, 50 + DEFAULT_DURATION_SECONDS);
}

#[test]
fn initialize_clamps_max_tickets() {
    assert_eq!(setup(100, 0, Some(1000), 0).max_tickets, 1);
    assert_eq!(setup(100, 100_000, Some(1000), 0).max_tickets, MAX_TICKETS as u32);
    assert_eq!(setup(100, 5, Some(1000), 0).max_tickets, 5);
}

#[test]
fn buys_keep_count_and_pot_in_step() {
    let mut v = setup(100, 50, Some(1000), 0);
    for buyer in 1..=40u64 {
        assert_eq!(buy_ticket(&mut v, buyer, 10), Ok(()));
        assert_eq!(v.ticket_count as usize, v.tickets.len());
        assert_eq!(v.pot, v.ticket_count as u64 * v.ticket_price);
    }
    assert_eq!(v.ticket_count, 40);
    assert_eq!(v.pot, 4000);
}

#[test]
fn buy_records_buyer_and_time() {
    let mut v = setup(100, 3, Some(1000), 0);
    assert_eq!(buy_ticket(&mut v, 42, 17), Ok(()));
    assert_eq!(v.tickets.len(), 1);
    assert_eq!(v.tickets[0].buyer, 42);
    assert_eq!(v.tickets[0].purchased_at, 17);
}

#[test]
fn duplicate_buy_fails_and_leaves_vault_unchanged() {
    let mut v = setup(100, 3, Some(1000), 0);
    assert_eq!(buy_ticket(&mut v, 42, 10), Ok(()));
    let before = v.clone();
    assert_eq!(buy_ticket(&mut v, 42, 20), Err(RaffleError::AlreadyEntered));
    assert_eq!(v, before);
}

#[test]
fn buy_after_deadline_fails() {
    let mut v = setup(100, 3, Some(1000), 0);
    let before = v.clone();
    assert_eq!(buy_ticket(&mut v, 42, 1000), Err(RaffleError::VaultClosed));
    assert_eq!(v, before);
}

#[test]
fn buy_beyond_max_tickets_fails_and_leaves_vault_unchanged() {
    let mut v = setup(100, 2, Some(1000), 0);
    assert_eq!(buy_ticket(&mut v, 1, 10), Ok(()));
    assert_eq!(buy_ticket(&mut v, 2, 11), Ok(()));
    let before = v.clone();
    assert_eq!(buy_ticket(&mut v, 3, 12), Err(RaffleError::MaxTicketsReached));
    assert_eq!(v, before);
}

#[test]
fn buy_at_fixed_capacity_fails() {
    let mut v = setup(100, u32::MAX, Some(1000), 0);
    assert_eq!(v.max_tickets as usize, MAX_TICKETS);
    for buyer in 0..MAX_TICKETS as u64 {
        assert_eq!(buy_ticket(&mut v, buyer, 10), Ok(()));
    }
    let before = v.clone();
    assert_eq!(
        buy_ticket(&mut v, MAX_TICKETS as u64, 10),
        Err(RaffleError::MaxTicketsReached)
    );
    assert_eq!(v, before);
}

#[test]
fn buy_overflowing_the_pot_fails() {
    let mut v = setup(u64::MAX, 3, Some(1000), 0);
    assert_eq!(buy_ticket(&mut v, 1, 10), Ok(()));
    assert_eq!(v.pot, u64::MAX);
    let before = v.clone();
    assert_eq!(buy_ticket(&mut v, 2, 11), Err(RaffleError::MathOverflow));
    assert_eq!(v, before);
}

#[test]
fn refund_then_buy_restores_pot_and_count() {
    let mut v = setup(100, 3, Some(1000), 0);
    assert_eq!(buy_ticket(&mut v, 1, 10), Ok(()));
    assert_eq!(buy_ticket(&mut v, 2, 11), Ok(()));
    let pot_before = v.pot;
    let count_before = v.ticket_count;
    assert_eq!(refund_ticket(&mut v, 1, 20), Ok(()));
    assert_eq!(v.pot, pot_before - 100);
    assert_eq!(v.ticket_count, count_before - 1);
    assert_eq!(buy_ticket(&mut v, 1, 30), Ok(()));
    assert_eq!(v.pot, pot_before);
    assert_eq!(v.ticket_count, count_before);
}

#[test]
fn refund_removes_only_the_payers_entry() {
    let mut v = setup(100, 3, Some(1000), 0);
    assert_eq!(buy_ticket(&mut v, 1, 10), Ok(()));
    assert_eq!(buy_ticket(&mut v, 2, 11), Ok(()));
    assert_eq!(buy_ticket(&mut v, 3, 12), Ok(()));
    assert_eq!(refund_ticket(&mut v, 1, 20), Ok(()));
    assert_eq!(v.ticket_count, 2);
    assert!(v.tickets.iter().all(|t| t.buyer != 1));
    assert!(v.tickets.iter().any(|t| t.buyer == 2));
    assert!(v.tickets.iter().any(|t| t.buyer == 3));
}

#[test]
fn refund_by_non_entrant_fails() {
    let mut v = setup(100, 3, Some(1000), 0);
    assert_eq!(buy_ticket(&mut v, 1, 10), Ok(()));
    let before = v.clone();
    assert_eq!(refund_ticket(&mut v, 9, 20), Err(RaffleError::TicketNotFound));
    assert_eq!(v, before);
}

#[test]
fn refund_after_deadline_fails() {
    let mut v = setup(100, 3, Some(1000), 0);
    assert_eq!(buy_ticket(&mut v, 1, 10), Ok(()));
    let before = v.clone();
    assert_eq!(refund_ticket(&mut v, 1, 1000), Err(RaffleError::VaultClosed));
    assert_eq!(v, before);
}

#[test]
fn finalize_selects_by_the_formula() {
    // canonical order sorts by purchase time, buyer as tie-break:
    // [(20, 3), (30, 3), (10, 5)]; the seed 1000 picks index 1000 % 3 == 1.
    let mut v = setup(100, 3, Some(1000), 0);
    assert_eq!(buy_ticket(&mut v, 10, 5), Ok(()));
    assert_eq!(buy_ticket(&mut v, 20, 3), Ok(()));
    assert_eq!(buy_ticket(&mut v, 30, 3), Ok(()));
    assert_eq!(payout_finalize(&mut v, AUTHORITY, 1000), Ok(()));
    assert_eq!(v.pending_winner, Some(30));
    assert_eq!(v.winner, 30);
    assert_eq!(v.pending_prize, 300);
    assert_eq!(v.status, VaultStatus::Finished);
    // the registry and the pot stay intact until the claim
    assert_eq!(v.ticket_count, 3);
    assert_eq!(v.pot, 300);

    // the same entries at a later time pick index 1001 % 3 == 2
    let mut w = setup(100, 3, Some(1000), 0);
    assert_eq!(buy_ticket(&mut w, 10, 5), Ok(()));
    assert_eq!(buy_ticket(&mut w, 20, 3), Ok(()));
    assert_eq!(buy_ticket(&mut w, 30, 3), Ok(()));
    assert_eq!(payout_finalize(&mut w, AUTHORITY, 1001), Ok(()));
    assert_eq!(w.pending_winner, Some(10));
}

#[test]
fn finalize_is_deterministic_across_storage_orders() {
    // the same entries, stored in a different physical order after a
    // refund and a re-purchase at the original times, pick the same winner
    let mut a = setup(100, 3, Some(1000), 0);
    assert_eq!(buy_ticket(&mut a, 1, 10), Ok(()));
    assert_eq!(buy_ticket(&mut a, 2, 11), Ok(()));
    assert_eq!(buy_ticket(&mut a, 3, 12), Ok(()));

    let mut b = setup(100, 3, Some(1000), 0);
    assert_eq!(buy_ticket(&mut b, 1, 10), Ok(()));
    assert_eq!(buy_ticket(&mut b, 2, 11), Ok(()));
    assert_eq!(buy_ticket(&mut b, 3, 12), Ok(()));
    assert_eq!(refund_ticket(&mut b, 1, 20), Ok(()));
    assert_eq!(buy_ticket(&mut b, 1, 10), Ok(()));
    assert_ne!(
        a.tickets.iter().map(|t| t.buyer).collect::<Vec<_>>(),
        b.tickets.iter().map(|t| t.buyer).collect::<Vec<_>>()
    );

    assert_eq!(payout_finalize(&mut a, AUTHORITY, 1007), Ok(()));
    assert_eq!(payout_finalize(&mut b, AUTHORITY, 1007), Ok(()));
    assert_eq!(a.pending_winner, b.pending_winner);
}

#[test]
fn finalize_by_non_authority_fails() {
    let mut v = setup(100, 3, Some(1000), 0);
    assert_eq!(buy_ticket(&mut v, 1, 10), Ok(()));
    let before = v.clone();
    assert_eq!(
        payout_finalize(&mut v, AUTHORITY + 1, 1000),
        Err(RaffleError::UnauthorizedFinalize)
    );
    assert_eq!(v, before);
}

#[test]
fn finalize_before_deadline_fails() {
    let mut v = setup(100, 3, Some(1000), 0);
    assert_eq!(buy_ticket(&mut v, 1, 10), Ok(()));
    assert_eq!(
        payout_finalize(&mut v, AUTHORITY, 999),
        Err(RaffleError::VaultStillRunning)
    );
}

#[test]
fn finalize_without_entries_fails() {
    let mut v = setup(100, 3, Some(1000), 0);
    assert_eq!(
        payout_finalize(&mut v, AUTHORITY, 1000),
        Err(RaffleError::NoTicketsSold)
    );
}

#[test]
fn finalize_twice_fails_with_winner_already_chosen() {
    let mut v = setup(100, 3, Some(1000), 0);
    assert_eq!(buy_ticket(&mut v, 1, 10), Ok(()));
    assert_eq!(payout_finalize(&mut v, AUTHORITY, 1000), Ok(()));
    let before = v.clone();
    assert_eq!(
        payout_finalize(&mut v, AUTHORITY, 1001),
        Err(RaffleError::WinnerAlreadyChosen)
    );
    assert_eq!(v, before);
}

#[test]
fn finalize_after_payout_fails_with_prize_already_claimed() {
    let mut v = setup(100, 3, Some(1000), 0);
    assert_eq!(buy_ticket(&mut v, 1, 10), Ok(()));
    assert_eq!(payout_finalize(&mut v, AUTHORITY, 1000), Ok(()));
    assert_eq!(claim_prize(&mut v, 1, 100), Ok(()));
    // a purchase while the clock reads inside the entry window again
    assert_eq!(buy_ticket(&mut v, 2, 10), Ok(()));
    assert_eq!(
        payout_finalize(&mut v, AUTHORITY, 1000),
        Err(RaffleError::PrizeAlreadyClaimed)
    );
}

#[test]
fn claim_by_wrong_identity_fails() {
    let mut v = setup(100, 3, Some(1000), 0);
    assert_eq!(buy_ticket(&mut v, 1, 10), Ok(()));
    assert_eq!(payout_finalize(&mut v, AUTHORITY, 1000), Ok(()));
    let before = v.clone();
    assert_eq!(claim_prize(&mut v, 2, 100), Err(RaffleError::UnauthorizedClaim));
    assert_eq!(v, before);
}

#[test]
fn claim_pays_once_then_rejects_a_retry() {
    let mut v = setup(100, 3, Some(1000), 0);
    assert_eq!(buy_ticket(&mut v, 1, 10), Ok(()));
    assert_eq!(buy_ticket(&mut v, 2, 11), Ok(()));
    assert_eq!(payout_finalize(&mut v, AUTHORITY, 1000), Ok(()));
    let winner = v.pending_winner.expect("a winner is pending");
    assert_eq!(claim_prize(&mut v, winner, 200), Ok(()));
    assert_eq!(v.pot, 0);
    assert_eq!(v.pending_prize, 0);
    assert_eq!(v.pending_winner, None);
    assert!(v.paid_out);
    assert_eq!(v.ticket_count, 0);
    assert!(v.tickets.is_empty());
    assert_eq!(v.winner, winner);
    assert_eq!(
        claim_prize(&mut v, winner, 0),
        Err(RaffleError::NoPendingWinner)
    );
}

#[test]
fn claim_without_pending_winner_fails() {
    let mut v = setup(100, 3, Some(1000), 0);
    assert_eq!(claim_prize(&mut v, 1, 100), Err(RaffleError::NoPendingWinner));
}

#[test]
fn claim_with_short_custody_balance_fails() {
    let mut v = setup(100, 3, Some(1000), 0);
    assert_eq!(buy_ticket(&mut v, 1, 10), Ok(()));
    assert_eq!(payout_finalize(&mut v, AUTHORITY, 1000), Ok(()));
    let before = v.clone();
    assert_eq!(claim_prize(&mut v, 1, 99), Err(RaffleError::NothingToPayout));
    assert_eq!(v, before);
}

#[test]
fn claim_with_zero_owed_prize_fails() {
    let v = Vault {
        authority: AUTHORITY,
        pot: 0,
        ticket_price: 100,
        max_tickets: 3,
        ticket_count: 0,
        end_time: 1000,
        winner: 0,
        tickets: Vec::new(),
        pending_winner: Some(5),
        pending_prize: 0,
        paid_out: false,
        status: VaultStatus::Finished,
    };
    let mut v = v;
    assert_eq!(claim_prize(&mut v, 5, 100), Err(RaffleError::NothingToPayout));
}

#[test]
fn cancel_requires_the_authority() {
    let v = setup(100, 3, Some(1000), 0);
    assert_eq!(
        cancel_vault(&v, AUTHORITY + 1),
        Err(RaffleError::Unauthorized)
    );
    assert_eq!(cancel_vault(&v, AUTHORITY), Ok(()));
}

#[test]
fn cancel_with_outstanding_tickets_or_pot_fails() {
    let mut v = setup(100, 3, Some(1000), 0);
    assert_eq!(buy_ticket(&mut v, 1, 10), Ok(()));
    assert_eq!(
        cancel_vault(&v, AUTHORITY),
        Err(RaffleError::TicketsOutstanding)
    );
    let stale = Vault {
        authority: AUTHORITY,
        pot: 5,
        ticket_price: 100,
        max_tickets: 3,
        ticket_count: 0,
        end_time: 1000,
        winner: 0,
        tickets: Vec::new(),
        pending_winner: None,
        pending_prize: 0,
        paid_out: false,
        status: VaultStatus::Open,
    };
    assert_eq!(
        cancel_vault(&stale, AUTHORITY),
        Err(RaffleError::TicketsOutstanding)
    );
}

#[test]
fn finalize_with_negative_timestamps() {
    // the seed is the timestamp reinterpreted as unsigned: -1000 becomes
    // 2^64 - 1000, an even value, so index 0 of the canonical order wins
    let args = InitializeArgs {
        ticket_price: 100,
        max_tickets: 3,
        duration_seconds: Some(1000),
    };
    let mut v = initialize_vault(AUTHORITY, args, -2000).expect("valid arguments");
    assert_eq!(v.end_time, -1000);
    assert_eq!(buy_ticket(&mut v, 1, -1500), Ok(()));
    assert_eq!(buy_ticket(&mut v, 2, -1500), Ok(()));
    assert_eq!(payout_finalize(&mut v, AUTHORITY, -1000), Ok(()));
    assert_eq!((-1000i64 as u64) % 2, 0);
    assert_eq!(v.pending_winner, Some(1));
}

#[test]
fn end_to_end_scenario() {
    let mut v = setup(100, 3, Some(1000), 0);
    assert_eq!(buy_ticket(&mut v, 1, 10), Ok(()));
    assert_eq!(buy_ticket(&mut v, 2, 20), Ok(()));
    assert_eq!(v.pot, 200);
    assert_eq!(v.ticket_count, 2);
    // canonical order is [(1, 10), (2, 20)]; 1000 % 2 == 0 picks buyer 1
    assert_eq!(payout_finalize(&mut v, AUTHORITY, 1000), Ok(()));
    assert_eq!(v.pending_winner, Some(1));
    assert_eq!(v.pending_prize, 200);
    assert_eq!(claim_prize(&mut v, 1, 200), Ok(()));
    assert_eq!(v.pot, 0);
    assert_eq!(v.pending_prize, 0);
    assert_eq!(v.pending_winner, None);
    assert!(v.paid_out);
    assert!(v.tickets.is_empty());
}
