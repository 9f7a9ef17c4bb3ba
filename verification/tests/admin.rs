//! Administrative controls of the lottery instance.

use pepball::lottery::ErrorCode;
use pepball::lottery::Lottery;
use pepball::lottery::close_lottery;
use pepball::lottery::configure_timing;
use pepball::lottery::emergency_pause_lottery;
use pepball::lottery::initialize_lottery;
use pepball::lottery::update_fees_collected;
use pepball::lottery::update_jackpot_amount;

const ADMIN: u64 = 99;

fn fresh_lottery() -> Lottery {
    initialize_lottery(1_000_000_000, ADMIN, 1234).unwrap()
}

#[test]
fn initialization_validates_the_pool() {
    assert!(matches!(
        initialize_lottery(0, ADMIN, 0),
        Err(ErrorCode::InvalidConfig)
    ));
    assert!(matches!(
        initialize_lottery(1_000_000 * 1_000_000_000 + 1, ADMIN, 0),
        Err(ErrorCode::InvalidConfig)
    ));
    let l = initialize_lottery(1_000_000 * 1_000_000_000, ADMIN, 77).unwrap();
    assert_eq!(l.jackpot_amount, 1_000_000 * 1_000_000_000);
    assert_eq!(l.last_snapshot, 77);
    assert_eq!(l.base_snapshot_interval, 72 * 60 * 60);
    assert_eq!(l.fast_snapshot_interval, 48 * 60 * 60);
    assert_eq!(l.fast_mode_threshold, 200 * 1_000_000_000);
    assert!(l.is_active);
    assert_eq!(l.admin, ADMIN);
    assert_eq!(l.snapshot_seed, 0);
    assert_eq!(l.pepe_ball_count, 0);
}

#[test]
fn every_setter_rejects_a_non_admin() {
    let mut l = fresh_lottery();
    assert_eq!(update_fees_collected(&mut l, 1, 5), Err(ErrorCode::Unauthorized));
    assert_eq!(emergency_pause_lottery(&mut l, 1), Err(ErrorCode::Unauthorized));
    assert_eq!(
        configure_timing(&mut l, 1, 10, 10, 10),
        Err(ErrorCode::Unauthorized)
    );
    assert_eq!(update_jackpot_amount(&mut l, 1, 5), Err(ErrorCode::Unauthorized));
    assert_eq!(close_lottery(&l, 1), Err(ErrorCode::Unauthorized));
    // Nothing changed under the failed calls.
    assert_eq!(l.fees_collected, 0);
    assert!(l.is_active);
    assert_eq!(l.jackpot_amount, 1_000_000_000);
}

#[test]
fn pause_toggles_activity() {
    let mut l = fresh_lottery();
    assert_eq!(emergency_pause_lottery(&mut l, ADMIN), Ok(()));
    assert!(!l.is_active);
    assert_eq!(emergency_pause_lottery(&mut l, ADMIN), Ok(()));
    assert!(l.is_active);
}

#[test]
fn timing_configuration_validates_intervals() {
    let mut l = fresh_lottery();
    assert_eq!(
        configure_timing(&mut l, ADMIN, 0, 10, 10),
        Err(ErrorCode::InvalidConfig)
    );
    assert_eq!(
        configure_timing(&mut l, ADMIN, 10, 0, 10),
        Err(ErrorCode::InvalidConfig)
    );
    assert_eq!(configure_timing(&mut l, ADMIN, 3600, 1800, 50), Ok(()));
    assert_eq!(l.base_snapshot_interval, 3600);
    assert_eq!(l.fast_snapshot_interval, 1800);
    assert_eq!(l.fast_mode_threshold, 50);
    // The fast-mode flag is recomputed against the new threshold.
    assert!(!l.is_fast_mode);
    update_fees_collected(&mut l, ADMIN, 50).unwrap();
    assert!(l.is_fast_mode);
    assert_eq!(configure_timing(&mut l, ADMIN, 3600, 1800, 1000), Ok(()));
    assert!(!l.is_fast_mode);
}

#[test]
fn jackpot_is_admin_adjustable() {
    let mut l = fresh_lottery();
    assert_eq!(update_jackpot_amount(&mut l, ADMIN, 123), Ok(()));
    assert_eq!(l.jackpot_amount, 123);
}

#[test]
fn closing_is_an_admin_check() {
    let l = fresh_lottery();
    assert_eq!(close_lottery(&l, ADMIN), Ok(()));
}
