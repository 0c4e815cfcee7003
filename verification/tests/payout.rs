use treatz_flip::payout::calc_payout;
use treatz_flip::state::MAX_STAKE;

#[test]
fn payout_exact_formula() {
    // 100 * (20000 - 500) / 10000 = 195
    assert_eq!(calc_payout(100, 500), 195);
    // 250 * (20000 - 1000) / 10000 = 475
    assert_eq!(calc_payout(250, 1000), 475);
}

#[test]
fn payout_zero_stake() {
    assert_eq!(calc_payout(0, 0), 0);
    assert_eq!(calc_payout(0, 19999), 0);
}

#[test]
fn payout_zero_fee_doubles() {
    assert_eq!(calc_payout(1, 0), 2);
    assert_eq!(calc_payout(12345, 0), 24690);
}

#[test]
fn payout_truncates_toward_zero() {
    // 1 * (20000 - 1) / 10000 = 19999 / 10000 = 1
    assert_eq!(calc_payout(1, 1), 1);
    // 3 * (20000 - 19999) / 10000 = 3 / 10000 = 0
    assert_eq!(calc_payout(3, 19999), 0);
}

#[test]
fn payout_monotonic_in_stake() {
    assert!(calc_payout(100, 500) <= calc_payout(101, 500));
    assert!(calc_payout(0, 500) <= calc_payout(1_000_000, 500));
}

#[test]
fn payout_non_increasing_in_fee() {
    assert!(calc_payout(100, 600) <= calc_payout(100, 500));
    assert!(calc_payout(100, 19999) <= calc_payout(100, 0));
}

#[test]
fn payout_largest_stake_fits() {
    // At fee 0 the payout is exactly twice the largest admissible stake,
    // which is the largest even u64.
    assert_eq!(calc_payout(MAX_STAKE, 0), u64::MAX - 1);
}
