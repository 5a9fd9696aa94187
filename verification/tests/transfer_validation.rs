use subscriptions::errors::SubscriptionsError;
use subscriptions::validation::{is_expired, validate_recurring_transfer};

fn run(start: i64, pulled: u64, expiry: i64, now: i64) -> (Result<(), SubscriptionsError>, i64, u64) {
    let mut period_start = start;
    let mut amount_pulled = pulled;
    let res = validate_recurring_transfer(100, 100, 30, &mut period_start, &mut amount_pulled, expiry, now);
    (res, period_start, amount_pulled)
}

#[test]
fn catch_up_at_exact_expiry_boundary_succeeds() {
    let (res, start, pulled) = run(0, 100, 90, 90);
    assert!(res.is_ok());
    assert_eq!(start, 60);
    assert_eq!(pulled, 100);
}

#[test]
fn boundary_before_expiry_advances_normally() {
    let (res, start, pulled) = run(0, 100, 90, 35);
    assert!(res.is_ok());
    assert_eq!(start, 30);
    assert_eq!(pulled, 100);
}

#[test]
fn fully_used_final_period_does_not_open_a_period_past_expiry() {
    let mut period_start = 60i64;
    let mut amount_pulled = 100u64;
    let res = validate_recurring_transfer(1, 100, 30, &mut period_start, &mut amount_pulled, 90, 90);
    assert!(res.is_err());
    assert_eq!(period_start, 60);
    assert_eq!(amount_pulled, 100);
}

#[test]
fn recurring_transfer_past_expiry_rejected_without_drift_grace() {
    let mut period_start = 0i64;
    let mut amount_pulled = 100u64;
    let res = validate_recurring_transfer(100, 100, 100, &mut period_start, &mut amount_pulled, 300, 350);
    assert!(res.is_err());
    assert_eq!(period_start, 0);
    assert_eq!(amount_pulled, 100);
}

#[test]
fn no_expiry_advances_to_floored_boundary() {
    let (res, start, pulled) = run(0, 100, 0, 90);
    assert!(res.is_ok());
    assert_eq!(start, 90);
    assert_eq!(pulled, 100);
}

#[test]
fn finite_expiry_is_hard_stop_with_no_drift_grace() {
    assert!(!is_expired(100, 100));
    assert!(is_expired(100, 101));
    assert!(!is_expired(0, i64::MAX));
}

#[test]
fn same_period_pull_accumulates_within_cap() {
    let mut period_start = 0i64;
    let mut amount_pulled = 40u64;
    let res = validate_recurring_transfer(60, 100, 30, &mut period_start, &mut amount_pulled, 0, 10);
    assert!(res.is_ok());
    assert_eq!(period_start, 0);
    assert_eq!(amount_pulled, 100);
}

#[test]
fn same_period_pull_over_cap_is_refused_unchanged() {
    let mut period_start = 0i64;
    let mut amount_pulled = 40u64;
    let res = validate_recurring_transfer(61, 100, 30, &mut period_start, &mut amount_pulled, 0, 10);
    assert_eq!(res, Err(SubscriptionsError::AmountExceedsPeriodLimit));
    assert_eq!(period_start, 0);
    assert_eq!(amount_pulled, 40);
}

#[test]
fn pull_before_start_is_refused() {
    let mut period_start = 100i64;
    let mut amount_pulled = 0u64;
    let res = validate_recurring_transfer(1, 100, 30, &mut period_start, &mut amount_pulled, 0, 99);
    assert_eq!(res, Err(SubscriptionsError::DelegationNotStarted));
}
