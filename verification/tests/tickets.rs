//! Ticket conversion and entry accounting.

use pepball::lottery::ErrorCode;
use pepball::lottery::Lottery;
use pepball::lottery::calculate_tickets_from_usd_value;
use pepball::lottery::enter_lottery;
use pepball::lottery::enter_lottery_with_usd_value;
use pepball::lottery::initialize_lottery;
use pepball::lottery::update_participant_tickets;

const ADMIN: u64 = 99;

fn fresh_lottery() -> Lottery {
    initialize_lottery(1_000_000_000, ADMIN, 0).unwrap()
}

#[test]
fn ticket_conversion_step_function() {
    assert_eq!(calculate_tickets_from_usd_value(0), 0);
    assert_eq!(calculate_tickets_from_usd_value(1999), 0);
    assert_eq!(calculate_tickets_from_usd_value(2000), 1);
    assert_eq!(calculate_tickets_from_usd_value(9999), 1);
    assert_eq!(calculate_tickets_from_usd_value(10000), 4);
    assert_eq!(calculate_tickets_from_usd_value(49999), 4);
    assert_eq!(calculate_tickets_from_usd_value(50000), 10);
    assert_eq!(calculate_tickets_from_usd_value(u64::MAX), 10);
}

#[test]
fn entry_below_minimum_fails() {
    let mut l = fresh_lottery();
    let r = enter_lottery_with_usd_value(&mut l, 1, 1999, 10);
    assert_eq!(r, Err(ErrorCode::InsufficientValue));
    assert_eq!(l.total_participants, 0);
    assert_eq!(l.total_tickets, 0);
}

#[test]
fn entry_grants_banded_tickets() {
    let mut l = fresh_lottery();
    assert_eq!(enter_lottery_with_usd_value(&mut l, 1, 2000, 10), Ok((1, 1)));
    assert_eq!(enter_lottery_with_usd_value(&mut l, 2, 10000, 11), Ok((4, 5)));
    assert_eq!(enter_lottery_with_usd_value(&mut l, 3, 50000, 12), Ok((10, 15)));
    assert_eq!(enter_lottery_with_usd_value(&mut l, 4, u64::MAX, 13), Ok((10, 25)));
    assert_eq!(l.total_participants, 4);
    assert_eq!(l.total_tickets, 25);
}

#[test]
fn entry_while_inactive_fails() {
    let mut l = fresh_lottery();
    l.is_active = false;
    assert_eq!(
        enter_lottery_with_usd_value(&mut l, 1, 2000, 10),
        Err(ErrorCode::LotteryInactive)
    );
    assert_eq!(enter_lottery(&mut l, 1, 3, 10), Err(ErrorCode::LotteryInactive));
    assert_eq!(
        update_participant_tickets(&mut l, 1, 3, 2000),
        Err(ErrorCode::LotteryInactive)
    );
}

#[test]
fn raw_entry_grants_exact_tickets() {
    let mut l = fresh_lottery();
    assert_eq!(enter_lottery(&mut l, 7, 3, 10), Ok((3, 3)));
    assert_eq!(l.total_participants, 1);
    assert_eq!(l.entries[0].wallet, 7);
    assert_eq!(l.entries[0].ticket_count, 3);
    assert_eq!(l.entries[0].usd_value, 0);
    assert_eq!(l.entries[0].entry_time, 10);
}

#[test]
fn raw_entry_of_zero_tickets_fails() {
    let mut l = fresh_lottery();
    assert_eq!(enter_lottery(&mut l, 7, 0, 10), Err(ErrorCode::InsufficientValue));
    assert_eq!(l.total_participants, 0);
}

#[test]
fn repeat_entry_updates_existing_record() {
    let mut l = fresh_lottery();
    assert_eq!(enter_lottery_with_usd_value(&mut l, 7, 2000, 10), Ok((1, 1)));
    assert_eq!(enter_lottery_with_usd_value(&mut l, 7, 10000, 20), Ok((4, 5)));
    // One record per participant per round: the repeat contribution was
    // routed to the existing entry instead of creating a duplicate.
    assert_eq!(l.total_participants, 1);
    assert_eq!(l.entries.len(), 1);
    assert_eq!(l.entries[0].ticket_count, 5);
    assert_eq!(l.entries[0].usd_value, 12000);
    assert_eq!(l.entries[0].entry_time, 10);
}

#[test]
fn update_path_adds_to_entry() {
    let mut l = fresh_lottery();
    assert_eq!(enter_lottery(&mut l, 7, 2, 10), Ok((2, 2)));
    assert_eq!(update_participant_tickets(&mut l, 7, 3, 4000), Ok(()));
    assert_eq!(l.entries[0].ticket_count, 5);
    assert_eq!(l.entries[0].usd_value, 4000);
    assert_eq!(l.total_tickets, 5);
    assert_eq!(l.total_participants, 1);
}

#[test]
fn update_without_entry_is_unauthorized() {
    let mut l = fresh_lottery();
    assert_eq!(
        update_participant_tickets(&mut l, 7, 3, 4000),
        Err(ErrorCode::Unauthorized)
    );
}

#[test]
fn ticket_counter_matches_ledger_after_many_operations() {
    let mut l = fresh_lottery();
    for w in 0..20u64 {
        enter_lottery_with_usd_value(&mut l, w, 2000 + w * 3000, 10).unwrap();
    }
    for w in 0..10u64 {
        update_participant_tickets(&mut l, w * 2, 2, 1000).unwrap();
    }
    let ledger_sum: u64 = l.entries.iter().map(|e| e.ticket_count as u64).sum();
    assert_eq!(l.total_tickets, ledger_sum);
    assert_eq!(l.total_participants, l.entries.len() as u64);
}
