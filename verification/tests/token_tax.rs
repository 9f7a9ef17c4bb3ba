//! The token's tax split and its administrative switches.

use pepball::token::ErrorCode;
use pepball::token::TokenInfo;
use pepball::token::emergency_pause;
use pepball::token::initialize_token;
use pepball::token::renounce_admin;
use pepball::token::transfer_with_tax;

const ADMIN: u64 = 7;
const CREATOR_FUND: u64 = 11;

fn fresh_token() -> TokenInfo {
    initialize_token("PEPBALL".to_string(), "PEP".to_string(), 9, CREATOR_FUND, ADMIN)
}

#[test]
fn initialization_scales_supply_by_decimals() {
    let t = fresh_token();
    assert_eq!(t.name, "PEPBALL");
    assert_eq!(t.symbol, "PEP");
    assert_eq!(t.decimals, 9);
    assert_eq!(t.total_supply, 1_000_000_000 * 1_000_000_000);
    assert_eq!(t.tax_rate, 250);
    assert_eq!(t.creator_fund_rate, 5);
    assert_eq!(t.jackpot_rate, 245);
    assert_eq!(t.creator_fund_address, CREATOR_FUND);
    assert!(!t.is_renounced);
    assert!(!t.is_paused);
    assert_eq!(t.admin, ADMIN);
}

#[test]
fn zero_decimals_leave_supply_unscaled() {
    let t = initialize_token("P".to_string(), "P".to_string(), 0, CREATOR_FUND, ADMIN);
    assert_eq!(t.total_supply, 1_000_000_000);
}

#[test]
fn tax_split_takes_basis_point_shares() {
    let t = fresh_token();
    let s = transfer_with_tax(&t, 10000);
    assert_eq!(s.creator_tax, 5);
    assert_eq!(s.jackpot_tax, 245);
    assert_eq!(s.transfer_amount, 9750);
}

#[test]
fn tax_split_conserves_the_amount() {
    let t = fresh_token();
    for amount in [0u64, 1, 999, 10000, 123_456_789, u64::MAX] {
        let s = transfer_with_tax(&t, amount);
        // Truncation loss stays inside the net amount: the three parts
        // always add back up to the transfer.
        assert_eq!(s.transfer_amount + s.creator_tax + s.jackpot_tax, amount);
        assert!(s.creator_tax <= amount);
        assert!(s.jackpot_tax <= amount);
    }
}

#[test]
fn small_transfers_round_taxes_down() {
    let t = fresh_token();
    let s = transfer_with_tax(&t, 999);
    assert_eq!(s.creator_tax, 0);
    assert_eq!(s.jackpot_tax, 24);
    assert_eq!(s.transfer_amount, 975);
}

#[test]
fn renounce_needs_admin_and_is_permanent() {
    let mut t = fresh_token();
    assert_eq!(renounce_admin(&mut t, 1), Err(ErrorCode::Unauthorized));
    assert_eq!(renounce_admin(&mut t, ADMIN), Ok(()));
    assert!(t.is_renounced);
    assert_eq!(t.admin, 0);
    assert_eq!(renounce_admin(&mut t, ADMIN), Err(ErrorCode::AlreadyRenounced));
    assert_eq!(emergency_pause(&mut t, ADMIN), Err(ErrorCode::AlreadyRenounced));
}

#[test]
fn pause_toggles_under_admin() {
    let mut t = fresh_token();
    assert_eq!(emergency_pause(&mut t, 1), Err(ErrorCode::Unauthorized));
    assert_eq!(emergency_pause(&mut t, ADMIN), Ok(()));
    assert!(t.is_paused);
    assert_eq!(emergency_pause(&mut t, ADMIN), Ok(()));
    assert!(!t.is_paused);
}
