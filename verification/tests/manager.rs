//! Liquidity-manager counters, fee conversion, and delta hedging.

use pepball::lp_manager::ErrorCode;
use pepball::lp_manager::auto_rebalance;
use pepball::lp_manager::boost_jackpot;
use pepball::lp_manager::calculate_delta;
use pepball::lp_manager::convert_fees_to_sol;
use pepball::lp_manager::emergency_withdraw;
use pepball::lp_manager::fund_jackpot;
use pepball::lp_manager::initialize_lp_manager;
use pepball::lp_manager::initialize_orca_position;
use pepball::lp_manager::set_target_delta;
use pepball::lp_manager::update_position_ticks;

const ADMIN: u64 = 42;

#[test]
fn initialization_sets_default_rates() {
    let m = initialize_lp_manager(ADMIN);
    assert_eq!(m.admin, ADMIN);
    assert!(m.is_initialized);
    assert_eq!(m.fee_conversion_rate, 8000);
    assert_eq!(m.jackpot_funding_rate, 4000);
    assert_eq!(m.total_funded, 0);
    assert_eq!(m.sol_converted, 0);
    assert!(!m.orca_position_initialized);
    assert_eq!(m.rebalance_count, 0);
}

#[test]
fn funding_accumulates() {
    let mut m = initialize_lp_manager(ADMIN);
    assert_eq!(fund_jackpot(&mut m, 1000), 1000);
    assert_eq!(fund_jackpot(&mut m, 500), 1500);
    assert_eq!(m.total_funded, 1500);
}

#[test]
fn fee_conversion_takes_eighty_percent() {
    let mut m = initialize_lp_manager(ADMIN);
    assert_eq!(convert_fees_to_sol(&mut m, 1000), 800);
    assert_eq!(convert_fees_to_sol(&mut m, 12345), 9876);
    assert_eq!(m.sol_converted, 800 + 9876);
}

#[test]
fn fee_conversion_saturates_on_huge_amounts() {
    let mut m = initialize_lp_manager(ADMIN);
    // The rate product saturates at the type bound before dividing down.
    assert_eq!(convert_fees_to_sol(&mut m, u64::MAX), u64::MAX / 10000);
}

#[test]
fn boosts_accumulate() {
    let mut m = initialize_lp_manager(ADMIN);
    assert_eq!(boost_jackpot(&mut m, 7), 7);
    assert_eq!(boost_jackpot(&mut m, 3), 10);
}

#[test]
fn withdrawal_needs_admin() {
    let m = initialize_lp_manager(ADMIN);
    assert_eq!(emergency_withdraw(&m, 1, 100), Err(ErrorCode::Unauthorized));
    assert_eq!(emergency_withdraw(&m, ADMIN, 100), Ok(()));
}

#[test]
fn position_setup_needs_admin() {
    let mut m = initialize_lp_manager(ADMIN);
    assert_eq!(
        initialize_orca_position(&mut m, 1, -100, 100),
        Err(ErrorCode::Unauthorized)
    );
    assert_eq!(initialize_orca_position(&mut m, ADMIN, -100, 100), Ok(()));
    assert!(m.orca_position_initialized);
    assert_eq!(m.tick_lower, -100);
    assert_eq!(m.tick_upper, 100);
    assert_eq!(m.target_delta, 0);
}

#[test]
fn delta_is_zero_below_band_and_full_above() {
    let mut m = initialize_lp_manager(ADMIN);
    assert_eq!(calculate_delta(&mut m, 500, 1000, 1000, 2000), Ok(0));
    assert_eq!(calculate_delta(&mut m, 2500, 1000, 1000, 2000), Ok(1000));
    assert_eq!(m.current_delta, 1000);
}

#[test]
fn delta_is_proportional_inside_band() {
    let mut m = initialize_lp_manager(ADMIN);
    assert_eq!(calculate_delta(&mut m, 1500, 1000, 1000, 2000), Ok(500));
    assert_eq!(calculate_delta(&mut m, 1250, 1000, 1000, 2000), Ok(250));
    assert_eq!(calculate_delta(&mut m, 1000, 999, 1000, 2000), Ok(0));
    assert_eq!(calculate_delta(&mut m, 2000, 999, 1000, 2000), Ok(999));
}

#[test]
fn delta_needs_initialized_manager() {
    let mut m = initialize_lp_manager(ADMIN);
    m.is_initialized = false;
    assert_eq!(
        calculate_delta(&mut m, 1500, 1000, 1000, 2000),
        Err(ErrorCode::NotInitialized)
    );
}

#[test]
fn rebalance_below_threshold_changes_nothing() {
    let mut m = initialize_lp_manager(ADMIN);
    initialize_orca_position(&mut m, ADMIN, -100, 100).unwrap();
    assert_eq!(auto_rebalance(&mut m, ADMIN, 99, 100, 1111), Ok(()));
    assert_eq!(m.rebalance_count, 0);
    assert_eq!(m.last_rebalance_amount, 0);
    assert_eq!(m.last_rebalance_time, 0);
}

#[test]
fn rebalance_records_magnitude_and_direction() {
    let mut m = initialize_lp_manager(ADMIN);
    initialize_orca_position(&mut m, ADMIN, -100, 100).unwrap();
    // Positive deviation: long exposure is reduced.
    assert_eq!(auto_rebalance(&mut m, ADMIN, 250, 100, 1111), Ok(()));
    assert_eq!(m.last_rebalance_amount, 250);
    assert_eq!(m.last_rebalance_direction, -1);
    assert_eq!(m.rebalance_count, 1);
    assert_eq!(m.last_rebalance_time, 1111);
    // Negative deviation: short exposure is reduced.
    assert_eq!(auto_rebalance(&mut m, ADMIN, -300, 100, 2222), Ok(()));
    assert_eq!(m.last_rebalance_amount, 300);
    assert_eq!(m.last_rebalance_direction, 1);
    assert_eq!(m.rebalance_count, 2);
}

#[test]
fn rebalance_needs_admin_and_open_position() {
    let mut m = initialize_lp_manager(ADMIN);
    assert_eq!(
        auto_rebalance(&mut m, 1, 250, 100, 0),
        Err(ErrorCode::Unauthorized)
    );
    assert_eq!(
        auto_rebalance(&mut m, ADMIN, 250, 100, 0),
        Err(ErrorCode::PositionNotInitialized)
    );
}

#[test]
fn ticks_and_target_are_admin_settable() {
    let mut m = initialize_lp_manager(ADMIN);
    assert_eq!(
        update_position_ticks(&mut m, 1, -5, 5),
        Err(ErrorCode::Unauthorized)
    );
    assert_eq!(update_position_ticks(&mut m, ADMIN, -5, 5), Ok(()));
    assert_eq!((m.tick_lower, m.tick_upper), (-5, 5));
    assert_eq!(set_target_delta(&mut m, 1, 77), Err(ErrorCode::Unauthorized));
    assert_eq!(set_target_delta(&mut m, ADMIN, 77), Ok(()));
    assert_eq!(m.target_delta, 77);
}
