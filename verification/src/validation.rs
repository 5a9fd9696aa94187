use vstd::prelude::*;

use crate::errors::SubscriptionsError;

verus! {

/// A finite expiry (`expiry_ts != 0`) is a hard stop: the delegation is
/// unspendable strictly after `expiry_ts`. A zero expiry never expires.
pub open spec fn spec_is_expired(expiry_ts: i64, current_ts: i64) -> bool {
    expiry_ts != 0 && current_ts > expiry_ts
}

/// Returns true when a finite-expiry delegation is past its `expiry_ts`.
pub fn is_expired(expiry_ts: i64, current_ts: i64) -> (b: bool)
    ensures
        b == spec_is_expired(expiry_ts, current_ts),
{
    expiry_ts != 0 && current_ts > expiry_ts
}

/// What a fixed transfer of `transfer_amount` against `remaining` gives.
pub open spec fn fixed_transfer_outcome(
    transfer_amount: u64,
    remaining: u64,
    expiry_ts: i64,
    current_ts: i64,
) -> Result<(), SubscriptionsError> {
    if transfer_amount == 0 {
        Err(SubscriptionsError::InvalidAmount)
    } else if spec_is_expired(expiry_ts, current_ts) {
        Err(SubscriptionsError::DelegationExpired)
    } else if transfer_amount > remaining {
        Err(SubscriptionsError::AmountExceedsLimit)
    } else {
        Ok(())
    }
}

/// Validates a fixed transfer against the delegation's remaining allowance and expiry.
pub fn validate_fixed_transfer(
    transfer_amount: u64,
    remaining: u64,
    expiry_ts: i64,
    current_ts: i64,
) -> (r: Result<(), SubscriptionsError>)
    ensures
        r == fixed_transfer_outcome(transfer_amount, remaining, expiry_ts, current_ts),
{
    if transfer_amount == 0 {
        return Err(SubscriptionsError::InvalidAmount);
    }
    if is_expired(expiry_ts, current_ts) {
        return Err(SubscriptionsError::DelegationExpired);
    }
    if transfer_amount > remaining {
        return Err(SubscriptionsError::AmountExceedsLimit);
    }
    Ok(())
}

/// What the single draw of `transfer_amount` against an up-to delegation with
/// ceiling `max_amount` gives. A zero ceiling marks a consumed delegation.
pub open spec fn up_to_transfer_outcome(
    transfer_amount: u64,
    max_amount: u64,
    expiry_ts: i64,
    current_ts: i64,
) -> Result<(), SubscriptionsError> {
    if max_amount == 0 {
        Err(SubscriptionsError::UpToDelegationConsumed)
    } else if spec_is_expired(expiry_ts, current_ts) {
        Err(SubscriptionsError::DelegationExpired)
    } else if transfer_amount > max_amount {
        Err(SubscriptionsError::AmountExceedsLimit)
    } else {
        Ok(())
    }
}

/// Validates the single draw against an up-to delegation: any amount up to
/// the ceiling (zero included) is accepted while the delegation is unspent
/// and unexpired.
pub fn validate_up_to_transfer(
    transfer_amount: u64,
    max_amount: u64,
    expiry_ts: i64,
    current_ts: i64,
) -> (r: Result<(), SubscriptionsError>)
    ensures
        r == up_to_transfer_outcome(transfer_amount, max_amount, expiry_ts, current_ts),
{
    if max_amount == 0 {
        return Err(SubscriptionsError::UpToDelegationConsumed);
    }
    if is_expired(expiry_ts, current_ts) {
        return Err(SubscriptionsError::DelegationExpired);
    }
    if transfer_amount > max_amount {
        return Err(SubscriptionsError::AmountExceedsLimit);
    }
    Ok(())
}

/// A fixed transfer is accepted exactly when it moves a positive amount no
/// larger than the remaining allowance (the whole remainder included) while
/// the delegation has no expiry or has not passed it; a zero amount is
/// refused first, then a transfer after the expiry, then one over the
/// allowance.
pub proof fn law_fixed_transfer_accepts_up_to_remaining(
    transfer_amount: u64,
    remaining: u64,
    expiry_ts: i64,
    current_ts: i64,
)
    ensures
        fixed_transfer_outcome(transfer_amount, remaining, expiry_ts, current_ts) is Ok <==> (0 < transfer_amount
            && transfer_amount <= remaining && (expiry_ts == 0 || current_ts <= expiry_ts)),
        transfer_amount == 0 ==> fixed_transfer_outcome(transfer_amount, remaining, expiry_ts, current_ts) == Err::<
            (),
            SubscriptionsError,
        >(SubscriptionsError::InvalidAmount),
        (transfer_amount > 0 && expiry_ts != 0 && current_ts > expiry_ts) ==> fixed_transfer_outcome(
            transfer_amount,
            remaining,
            expiry_ts,
            current_ts,
        ) == Err::<(), SubscriptionsError>(SubscriptionsError::DelegationExpired),
        (transfer_amount > remaining && (expiry_ts == 0 || current_ts <= expiry_ts)) ==> fixed_transfer_outcome(
            transfer_amount,
            remaining,
            expiry_ts,
            current_ts,
        ) == Err::<(), SubscriptionsError>(SubscriptionsError::AmountExceedsLimit),
{
}

/// The single draw of an up-to delegation is accepted exactly when the
/// delegation is unconsumed (a positive ceiling), has no expiry or has not
/// passed it, and the amount is at most the ceiling (the ceiling itself and
/// zero included).
pub proof fn law_up_to_accepts_up_to_ceiling(transfer_amount: u64, max_amount: u64, expiry_ts: i64, current_ts: i64)
    ensures
        up_to_transfer_outcome(transfer_amount, max_amount, expiry_ts, current_ts) is Ok <==> (max_amount > 0
            && (expiry_ts == 0 || current_ts <= expiry_ts) && transfer_amount <= max_amount),
        max_amount == 0 ==> up_to_transfer_outcome(transfer_amount, max_amount, expiry_ts, current_ts) == Err::<
            (),
            SubscriptionsError,
        >(SubscriptionsError::UpToDelegationConsumed),
        (max_amount > 0 && (expiry_ts == 0 || current_ts <= expiry_ts) && transfer_amount > max_amount)
            ==> up_to_transfer_outcome(transfer_amount, max_amount, expiry_ts, current_ts) == Err::<
            (),
            SubscriptionsError,
        >(SubscriptionsError::AmountExceedsLimit),
{
}

/// Seconds elapsed since `start`, saturated at `i64::MAX` (`now >= start`).
pub open spec fn elapsed_since(start: i64, now: i64) -> int {
    if now - start > i64::MAX {
        i64::MAX as int
    } else {
        now - start
    }
}

/// The last period boundary strictly before a finite `expiry`, when it lies
/// after `start`; otherwise `start` itself.
pub open spec fn last_boundary_before(start: i64, period: int, expiry: i64) -> int {
    if expiry - 1 >= start {
        start + ((expiry - 1 - start) / period) * period
    } else {
        start as int
    }
}

/// Period start and amount pulled after rolling a recurring allowance
/// forward to `now`: the start moves by whole periods and the pulled amount
/// resets; with a finite expiry the start never reaches a boundary at or past
/// the expiry.
pub open spec fn rolled_period(start: i64, pulled: u64, period: int, expiry: i64, now: i64) -> (
    i64,
    u64,
) {
    let elapsed = elapsed_since(start, now);
    if elapsed >= period {
        let candidate = start + (elapsed / period) * period;
        if expiry == 0 || candidate < expiry {
            (candidate as i64, 0)
        } else if last_boundary_before(start, period, expiry) > start {
            (last_boundary_before(start, period, expiry) as i64, 0)
        } else {
            (start, pulled)
        }
    } else {
        (start, pulled)
    }
}

/// Result, new period start and new amount pulled of a recurring transfer.
pub open spec fn recurring_transfer_outcome(
    transfer_amount: u64,
    amount_per_period: u64,
    period_length_s: u64,
    start: i64,
    pulled: u64,
    expiry_ts: i64,
    current_ts: i64,
) -> (Result<(), SubscriptionsError>, i64, u64) {
    if transfer_amount == 0 {
        (Err(SubscriptionsError::InvalidAmount), start, pulled)
    } else if spec_is_expired(expiry_ts, current_ts) {
        (Err(SubscriptionsError::DelegationExpired), start, pulled)
    } else if period_length_s > i64::MAX || period_length_s == 0 {
        (Err(SubscriptionsError::InvalidPeriodLength), start, pulled)
    } else if current_ts < start {
        (Err(SubscriptionsError::DelegationNotStarted), start, pulled)
    } else {
        let rolled = rolled_period(start, pulled, period_length_s as int, expiry_ts, current_ts);
        if rolled.1 > amount_per_period {
            (Err(SubscriptionsError::ArithmeticUnderflow), rolled.0, rolled.1)
        } else if transfer_amount > amount_per_period - rolled.1 {
            (Err(SubscriptionsError::AmountExceedsPeriodLimit), rolled.0, rolled.1)
        } else {
            (Ok(()), rolled.0, (rolled.1 + transfer_amount) as u64)
        }
    }
}

proof fn lemma_floor_multiple(x: int, p: int)
    requires
        x >= 0,
        p > 0,
    ensures
        0 <= (x / p) * p <= x,
        x - (x / p) * p < p,
        x / p >= 0,
{
    assert(0 <= (x / p) * p <= x && x - (x / p) * p < p && x / p >= 0) by (nonlinear_arith)
        requires
            x >= 0,
            p > 0,
    ;
}

/// Validates a recurring transfer against per-period limits, rolling the
/// period forward by whole periods when it has elapsed (resetting the pulled
/// amount), and records the transfer in the period on success.
pub fn validate_recurring_transfer(
    transfer_amount: u64,
    amount_per_period: u64,
    period_length_s: u64,
    current_period_start_ts: &mut i64,
    amount_pulled_in_period: &mut u64,
    expiry_ts: i64,
    current_ts: i64,
) -> (r: Result<(), SubscriptionsError>)
    ensures
        r == recurring_transfer_outcome(
            transfer_amount,
            amount_per_period,
            period_length_s,
            *old(current_period_start_ts),
            *old(amount_pulled_in_period),
            expiry_ts,
            current_ts,
        ).0,
        *final(current_period_start_ts) == recurring_transfer_outcome(
            transfer_amount,
            amount_per_period,
            period_length_s,
            *old(current_period_start_ts),
            *old(amount_pulled_in_period),
            expiry_ts,
            current_ts,
        ).1,
        *final(amount_pulled_in_period) == recurring_transfer_outcome(
            transfer_amount,
            amount_per_period,
            period_length_s,
            *old(current_period_start_ts),
            *old(amount_pulled_in_period),
            expiry_ts,
            current_ts,
        ).2,
{
    if transfer_amount == 0 {
        return Err(SubscriptionsError::InvalidAmount);
    }
    if is_expired(expiry_ts, current_ts) {
        return Err(SubscriptionsError::DelegationExpired);
    }
    if period_length_s > i64::MAX as u64 {
        return Err(SubscriptionsError::InvalidPeriodLength);
    }
    let period_length: i64 = period_length_s as i64;
    if period_length == 0 {
        return Err(SubscriptionsError::InvalidPeriodLength);
    }
    let start: i64 = *current_period_start_ts;
    if current_ts < start {
        return Err(SubscriptionsError::DelegationNotStarted);
    }
    let time_since_start: i64 = match current_ts.checked_sub(start) {
        Some(d) => d,
        None => i64::MAX,
    };
    assert(time_since_start == elapsed_since(start, current_ts));

    if time_since_start >= period_length {
        let periods_passed: i64 = time_since_start / period_length;
        proof {
            lemma_floor_multiple(time_since_start as int, period_length as int);
        }
        let increment: i64 = periods_passed * period_length;
        assert(start + increment <= current_ts);
        let candidate_start: i64 = start + increment;
        if expiry_ts == 0 || candidate_start < expiry_ts {
            *current_period_start_ts = candidate_start;
            *amount_pulled_in_period = 0;
        } else {
            // Here the candidate boundary equals `current_ts == expiry_ts`.
            let last_billable: i64 = expiry_ts - 1;
            if last_billable >= start {
                let span: i64 = last_billable - start;
                proof {
                    lemma_floor_multiple(span as int, period_length as int);
                }
                let periods_in_bounds: i64 = span / period_length;
                let increment_in_bounds: i64 = periods_in_bounds * period_length;
                let last_in_bounds_start: i64 = start + increment_in_bounds;
                if last_in_bounds_start > start {
                    *current_period_start_ts = last_in_bounds_start;
                    *amount_pulled_in_period = 0;
                }
            }
        }
    }

    if *amount_pulled_in_period > amount_per_period {
        return Err(SubscriptionsError::ArithmeticUnderflow);
    }
    let available: u64 = amount_per_period - *amount_pulled_in_period;
    if transfer_amount > available {
        return Err(SubscriptionsError::AmountExceedsPeriodLimit);
    }
    *amount_pulled_in_period = *amount_pulled_in_period + transfer_amount;
    Ok(())
}

proof fn lemma_rolled_period_facts(start: i64, pulled: u64, p: int, expiry: i64, now: i64)
    requires
        0 < p <= i64::MAX,
        now >= start,
    ensures
        ({
            let r = rolled_period(start, pulled, p, expiry, now);
            &&& start <= r.0
            &&& (r.0 - start) % p == 0
            &&& r.0 == start ==> r.1 == pulled
            &&& r.0 != start ==> r.0 <= now && r.1 == 0
            &&& (expiry != 0 && r.0 != start) ==> r.0 < expiry
        }),
{
    let e = elapsed_since(start, now);
    assert(0int % p == 0) by (nonlinear_arith)
        requires
            p > 0,
    ;
    if e >= p {
        lemma_floor_multiple(e, p);
        let k = e / p;
        assert(k >= 1) by (nonlinear_arith)
            requires
                e >= p,
                p > 0,
                k == e / p,
        ;
        assert((k * p) % p == 0 && k * p >= p) by (nonlinear_arith)
            requires
                k >= 1,
                p > 0,
        ;
        assert(start + k * p <= now);
        if expiry - 1 >= start {
            let sp = expiry - 1 - start;
            lemma_floor_multiple(sp, p);
            let k2 = sp / p;
            assert((k2 * p) % p == 0) by (nonlinear_arith)
                requires
                    k2 >= 0,
                    p > 0,
            ;
            assert(((start + k2 * p) as i64) - start == k2 * p);
        }
        assert(((start + k * p) as i64) - start == k * p);
    }
}

/// A recurring allowance is accepted only while it stays within its cap: after
/// an accepted transfer the amount pulled in the (possibly rolled) period is at
/// most `amount_per_period`, and so is the transfer itself, however many periods
/// were skipped.
pub proof fn law_recurring_pull_within_period_cap(
    transfer_amount: u64,
    amount_per_period: u64,
    period_length_s: u64,
    start: i64,
    pulled: u64,
    expiry_ts: i64,
    current_ts: i64,
)
    ensures
        ({
            let o = recurring_transfer_outcome(
                transfer_amount,
                amount_per_period,
                period_length_s,
                start,
                pulled,
                expiry_ts,
                current_ts,
            );
            o.0 is Ok ==> o.2 <= amount_per_period && transfer_amount <= amount_per_period
                && o.2 >= transfer_amount
        }),
{
}

/// The period start only ever moves forward by whole periods and never past
/// the current time; when it moves, the pulled amount starts again from zero.
pub proof fn law_recurring_period_start_aligned(
    transfer_amount: u64,
    amount_per_period: u64,
    period_length_s: u64,
    start: i64,
    pulled: u64,
    expiry_ts: i64,
    current_ts: i64,
)
    requires
        0 < period_length_s <= i64::MAX,
    ensures
        ({
            let o = recurring_transfer_outcome(
                transfer_amount,
                amount_per_period,
                period_length_s,
                start,
                pulled,
                expiry_ts,
                current_ts,
            );
            &&& start <= o.1
            &&& (o.1 - start) % (period_length_s as int) == 0
            &&& o.1 != start ==> o.1 <= current_ts
        }),
{
    let p = period_length_s as int;
    assert(0int % p == 0) by (nonlinear_arith)
        requires
            p > 0,
    ;
    if current_ts >= start {
        lemma_rolled_period_facts(start, pulled, p, expiry_ts, current_ts);
    }
}

/// Whether `start + k * period` is a period boundary a recurring allowance
/// may roll to at `now`: not after `now`, and, past the first period, before
/// a finite `expiry`.
pub open spec fn boundary_in_bounds(start: i64, period: int, k: int, expiry: i64, now: i64) -> bool {
    &&& k >= 0
    &&& start + k * period <= now
    &&& (k == 0 || expiry == 0 || start + k * period < expiry)
}

proof fn lemma_no_later_boundary(start: i64, p: int, k: int, expiry: i64, now: i64, bound: int)
    requires
        p > 0,
        k >= 0,
        start + k * p + p > bound,
        bound == now || (bound == expiry - 1 && expiry != 0),
    ensures
        forall|j: int| j > k ==> !#[trigger] boundary_in_bounds(start, p, j, expiry, now),
{
    assert forall|j: int| j > k implies !#[trigger] boundary_in_bounds(start, p, j, expiry, now) by {
        assert(j * p >= k * p + p) by (nonlinear_arith)
            requires
                j >= k + 1,
                p > 0,
        ;
    }
}

/// An accepted recurring transfer rolls the period start to the latest
/// whole-period boundary that is not after the current time and, past the
/// first period, lies before a finite expiry: the returned `k` counts the
/// periods moved, and no later boundary qualifies. (When more than
/// `i64::MAX` seconds separate the start from the current time, the elapsed
/// time saturates and the start moves less far.)
pub proof fn law_recurring_period_start_is_latest_boundary(
    transfer_amount: u64,
    amount_per_period: u64,
    period_length_s: u64,
    start: i64,
    pulled: u64,
    expiry_ts: i64,
    current_ts: i64,
) -> (k: int)
    requires
        recurring_transfer_outcome(
            transfer_amount,
            amount_per_period,
            period_length_s,
            start,
            pulled,
            expiry_ts,
            current_ts,
        ).0 is Ok,
        current_ts - start <= i64::MAX,
    ensures
        ({
            let o = recurring_transfer_outcome(
                transfer_amount,
                amount_per_period,
                period_length_s,
                start,
                pulled,
                expiry_ts,
                current_ts,
            );
            let p = period_length_s as int;
            &&& o.1 == start + k * p
            &&& boundary_in_bounds(start, p, k, expiry_ts, current_ts)
            &&& forall|j: int| j > k ==> !#[trigger] boundary_in_bounds(start, p, j, expiry_ts, current_ts)
        }),
{
    let p = period_length_s as int;
    let e = current_ts - start;
    assert(elapsed_since(start, current_ts) == e);
    assert(0 * p == 0);
    if e < p {
        lemma_no_later_boundary(start, p, 0, expiry_ts, current_ts, current_ts as int);
        0
    } else {
        lemma_floor_multiple(e, p);
        let q = e / p;
        let c = start + q * p;
        if expiry_ts == 0 || c < expiry_ts {
            lemma_no_later_boundary(start, p, q, expiry_ts, current_ts, current_ts as int);
            q
        } else if expiry_ts - 1 >= start {
            let span = expiry_ts - 1 - start;
            lemma_floor_multiple(span, p);
            let q2 = span / p;
            lemma_no_later_boundary(start, p, q2, expiry_ts, current_ts, expiry_ts - 1);
            if q2 > 0 {
                assert(q2 * p > 0) by (nonlinear_arith)
                    requires
                        q2 > 0,
                        p > 0,
                ;
                q2
            } else {
                assert(q2 == 0);
                lemma_no_later_boundary(start, p, 0, expiry_ts, current_ts, expiry_ts - 1);
                0
            }
        } else {
            lemma_no_later_boundary(start, p, 0, expiry_ts, current_ts, expiry_ts - 1);
            0
        }
    }
}

/// With a finite expiry, rolling the period forward never opens a period
/// that starts at or after the expiry.
pub proof fn law_recurring_no_period_opened_past_expiry(
    transfer_amount: u64,
    amount_per_period: u64,
    period_length_s: u64,
    start: i64,
    pulled: u64,
    expiry_ts: i64,
    current_ts: i64,
)
    requires
        expiry_ts != 0,
    ensures
        ({
            let o = recurring_transfer_outcome(
                transfer_amount,
                amount_per_period,
                period_length_s,
                start,
                pulled,
                expiry_ts,
                current_ts,
            );
            o.1 != start ==> o.1 < expiry_ts
        }),
{
    if 0 < period_length_s <= i64::MAX && current_ts >= start {
        lemma_rolled_period_facts(start, pulled, period_length_s as int, expiry_ts, current_ts);
    }
}

/// Two accepted transfers that land in the same period together stay within
/// that period's allowance: the second call sees the first one's pulled
/// amount and both amounts are counted.
pub proof fn law_recurring_same_period_transfers_share_cap(
    first_amount: u64,
    second_amount: u64,
    amount_per_period: u64,
    period_length_s: u64,
    start: i64,
    pulled: u64,
    expiry_ts: i64,
    first_ts: i64,
    second_ts: i64,
)
    ensures
        ({
            let o1 = recurring_transfer_outcome(
                first_amount,
                amount_per_period,
                period_length_s,
                start,
                pulled,
                expiry_ts,
                first_ts,
            );
            let o2 = recurring_transfer_outcome(
                second_amount,
                amount_per_period,
                period_length_s,
                o1.1,
                o1.2,
                expiry_ts,
                second_ts,
            );
            (o1.0 is Ok && o2.0 is Ok && o2.1 == o1.1) ==> first_amount + second_amount
                <= amount_per_period
        }),
{
    let o1 = recurring_transfer_outcome(
        first_amount,
        amount_per_period,
        period_length_s,
        start,
        pulled,
        expiry_ts,
        first_ts,
    );
    if o1.0 is Ok && 0 < period_length_s <= i64::MAX && second_ts >= o1.1 {
        lemma_rolled_period_facts(o1.1, o1.2, period_length_s as int, expiry_ts, second_ts);
    }
}

} // verus!
