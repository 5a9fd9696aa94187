use vstd::prelude::*;

use crate::accounts::{AccountInfo, ProgramAccount, SignerAccount, WritableAccount};
use crate::address::Address;
use crate::errors::SubscriptionsError;
use crate::instructions::transfer::{check_version, version_verdict};
use crate::state::common::CURRENT_VERSION;
use crate::state::plan::Plan;
use crate::state::subscription_delegation::SubscriptionDelegation;

verus! {

/// `a - b` saturated to the `i64` range.
pub open spec fn saturating_diff(a: i64, b: i64) -> int {
    if a - b > i64::MAX {
        i64::MAX as int
    } else if a - b < i64::MIN {
        i64::MIN as int
    } else {
        a - b
    }
}

/// Integer division rounding toward zero, for a positive divisor.
pub open spec fn trunc_div(a: int, b: int) -> int {
    if a >= 0 {
        a / b
    } else {
        -((-a) / b)
    }
}

/// The end of the billing period that contains `current_ts` (counting whole
/// periods from `period_start`), capped at a finite plan end; an error when
/// it falls outside the `i64` range.
pub open spec fn period_end_after(period_start: i64, period_length: int, end_ts: i64, current_ts: i64) -> Result<
    i64,
    SubscriptionsError,
> {
    let k = trunc_div(saturating_diff(current_ts, period_start), period_length);
    let offset = (k + 1) * period_length;
    if offset > i64::MAX || offset < i64::MIN || period_start + offset > i64::MAX || period_start
        + offset < i64::MIN {
        Err(SubscriptionsError::ArithmeticOverflow)
    } else if end_ts != 0 && end_ts < period_start + offset {
        Ok(end_ts)
    } else {
        Ok((period_start + offset) as i64)
    }
}

/// Whether the plan account holds a plan whose terms are the subscription's.
pub open spec fn plan_terms_match(sub: SubscriptionDelegation, plan: Plan) -> bool {
    sub.terms == plan.data.terms
}

/// The expiry a cancellation sets: the end of the current paid period,
/// capped at the plan's end; immediately when the plan account is closed
/// or now carries other terms.
pub open spec fn cancel_expiry(sub: SubscriptionDelegation, plan: Option<Plan>, current_ts: i64) -> Result<
    i64,
    SubscriptionsError,
> {
    match plan {
        None => Ok(current_ts),
        Some(p) => if !plan_terms_match(sub, p) {
            Ok(current_ts)
        } else {
            period_end_after(
                sub.current_period_start_ts,
                sub.terms.period_hours * 3600,
                p.data.end_ts,
                current_ts,
            )
        },
    }
}

/// The verdict of `subscriber` cancelling `sub` bound to the plan account
/// at `plan_address` (`plan` is its content, `None` once closed).
pub open spec fn cancel_verdict(
    sub: SubscriptionDelegation,
    subscriber: Seq<u8>,
    plan_address: Seq<u8>,
    plan: Option<Plan>,
    current_ts: i64,
) -> Result<i64, SubscriptionsError> {
    if version_verdict(sub.header.version) is Err {
        Err(SubscriptionsError::MigrationRequired)
    } else if sub.header.delegator@ != subscriber {
        Err(SubscriptionsError::Unauthorized)
    } else if sub.expires_at_ts != 0 {
        Err(SubscriptionsError::SubscriptionAlreadyCancelled)
    } else if sub.header.delegatee@ != plan_address {
        Err(SubscriptionsError::SubscriptionPlanMismatch)
    } else {
        cancel_expiry(sub, plan, current_ts)
    }
}

/// Whether the period arithmetic of a cancellation stays within machine
/// limits: a subscription that still matches its live plan has a period of
/// at least one hour whose length in seconds fits an `i64`.
pub open spec fn cancel_period_in_range(sub: SubscriptionDelegation, plan: Option<Plan>) -> bool {
    (plan matches Some(p) && plan_terms_match(sub, p)) ==> (1 <= sub.terms.period_hours
        && sub.terms.period_hours * 3600 <= i64::MAX)
}

/// The quotient of an `i64`-range value by a positive `i64`-range period,
/// plus one, times the period stays well inside the `i128` range.
proof fn lemma_period_offset_fits(elapsed: int, period: int)
    requires
        i64::MIN <= elapsed <= i64::MAX,
        1 <= period <= i64::MAX,
    ensures
        i64::MIN <= trunc_div(elapsed, period) <= i64::MAX,
        -0x4000_0000_0000_0001_0000_0000_0000_0001int <= (trunc_div(elapsed, period) + 1) * period
            <= 0x4000_0000_0000_0001_0000_0000_0000_0001int,
{
    let a: int = if elapsed >= 0 { elapsed } else { -elapsed };
    assert(0 <= a / period <= a) by (nonlinear_arith)
        requires
            period >= 1,
            a >= 0,
    ;
    let k = trunc_div(elapsed, period);
    assert(-0x8000_0000_0000_0000int <= k <= 0x7fff_ffff_ffff_ffffint);
    assert(-0x4000_0000_0000_0001_0000_0000_0000_0001int <= (k + 1) * period
        <= 0x4000_0000_0000_0001_0000_0000_0000_0001int) by (nonlinear_arith)
        requires
            -0x7fff_ffff_ffff_ffffint <= k + 1 <= 0x8000_0000_0000_0000int,
            1 <= period <= 0x7fff_ffff_ffff_ffffint,
    ;
}

/// The first period boundary after `e` seconds into a period sequence of
/// length `p`: strictly after `e`, at most one period later, and a whole
/// number of periods from the start.
proof fn lemma_next_boundary(e: int, p: int)
    requires
        e >= 0,
        p >= 1,
    ensures
        e < (e / p + 1) * p <= e + p,
        ((e / p + 1) * p) % p == 0,
{
    vstd::arithmetic::div_mod::lemma_fundamental_div_mod(e, p);
    assert(e < (e / p + 1) * p <= e + p) by (nonlinear_arith)
        requires
            p >= 1,
            e == p * (e / p) + e % p,
            0 <= e % p < p,
    ;
    vstd::arithmetic::div_mod::lemma_mod_multiples_basic(e / p + 1, p);
}

/// A cancellation keeps the period the subscriber has paid for: while the
/// plan still matches and has not ended, the subscription stays valid past
/// the moment of cancelling, until the first period boundary after it (or
/// the plan's end, if that comes first), and never longer than one period.
pub proof fn law_cancel_keeps_paid_period(
    sub: SubscriptionDelegation,
    subscriber: Seq<u8>,
    plan_address: Seq<u8>,
    plan: Plan,
    current_ts: i64,
)
    requires
        cancel_verdict(sub, subscriber, plan_address, Some(plan), current_ts) is Ok,
        plan_terms_match(sub, plan),
        sub.terms.period_hours >= 1,
        plan.data.end_ts == 0 || plan.data.end_ts > current_ts,
        sub.current_period_start_ts <= current_ts,
        current_ts - sub.current_period_start_ts <= i64::MAX,
    ensures
        ({
            let x = cancel_verdict(sub, subscriber, plan_address, Some(plan), current_ts)->Ok_0;
            let start = sub.current_period_start_ts as int;
            let period = sub.terms.period_hours * 3600;
            let boundary = start + ((current_ts - start) / period + 1) * period;
            &&& x > current_ts
            &&& x <= current_ts + period
            &&& (boundary - start) % period == 0
            &&& x == (if plan.data.end_ts != 0 && plan.data.end_ts < boundary {
                plan.data.end_ts as int
            } else {
                boundary
            })
        }),
{
    let start = sub.current_period_start_ts as int;
    let period = sub.terms.period_hours * 3600;
    let e = current_ts - start;
    assert(saturating_diff(current_ts, sub.current_period_start_ts) == e);
    assert(trunc_div(e, period) == e / period);
    lemma_next_boundary(e, period);
}

/// Cancels a subscription by setting its `expires_at_ts` to the end of the
/// current billing period (see [`cancel_expiry`]). Returns the expiry; the
/// subscription is unchanged when the cancellation is refused.
pub fn cancel(
    sub: &mut SubscriptionDelegation,
    subscriber: &Address,
    plan_address: &Address,
    plan: Option<&Plan>,
    current_ts: i64,
) -> (r: Result<i64, SubscriptionsError>)
    requires
        cancel_period_in_range(
            *old(sub),
            match plan {
                Some(p) => Some(*p),
                None => None,
            },
        ),
    ensures
        ({
            let v = cancel_verdict(
                *old(sub),
                subscriber@,
                plan_address@,
                match plan {
                    Some(p) => Some(*p),
                    None => None,
                },
                current_ts,
            );
            match r {
                Ok(x) => v == Ok::<i64, SubscriptionsError>(x) && *final(sub)
                    == SubscriptionDelegation { expires_at_ts: x, ..*old(sub) },
                Err(e) => v == Err::<i64, SubscriptionsError>(e) && *final(sub) == *old(sub),
            }
        }),
{
    check_version(sub.header.version)?;
    if !sub.header.delegator.equals(subscriber) {
        return Err(SubscriptionsError::Unauthorized);
    }
    if sub.expires_at_ts != 0 {
        return Err(SubscriptionsError::SubscriptionAlreadyCancelled);
    }
    if !sub.header.delegatee.equals(plan_address) {
        return Err(SubscriptionsError::SubscriptionPlanMismatch);
    }
    let expires_at_ts: i64 = match plan {
        None => current_ts,
        Some(p) => {
            if sub.check_plan_terms(&p.data.terms).is_err() {
                current_ts
            } else {
                let period: i128 = (sub.terms.period_hours as i128) * 3600;
                let start: i128 = sub.current_period_start_ts as i128;
                let mut elapsed: i128 = current_ts as i128 - start;
                if elapsed > i64::MAX as i128 {
                    elapsed = i64::MAX as i128;
                }
                if elapsed < i64::MIN as i128 {
                    elapsed = i64::MIN as i128;
                }
                let k: i128 = if elapsed >= 0 {
                    elapsed / period
                } else {
                    -((-elapsed) / period)
                };
                proof {
                    lemma_period_offset_fits(elapsed as int, period as int);
                }
                let offset: i128 = (k + 1) * period;
                if offset > i64::MAX as i128 || offset < i64::MIN as i128 {
                    return Err(SubscriptionsError::ArithmeticOverflow);
                }
                let ts: i128 = start + offset;
                if ts > i64::MAX as i128 || ts < i64::MIN as i128 {
                    return Err(SubscriptionsError::ArithmeticOverflow);
                }
                if p.data.end_ts != 0 && (p.data.end_ts as i128) < ts {
                    p.data.end_ts
                } else {
                    ts as i64
                }
            }
        },
    };
    sub.expires_at_ts = expires_at_ts;
    Ok(expires_at_ts)
}

/// The accounts of a `CancelSubscription` instruction, by index.
pub struct CancelSubscriptionAccounts {
    /// The subscriber (signer).
    pub subscriber: usize,
    /// The plan the subscription is bound to.
    pub plan_pda: usize,
    /// The subscription account (program-owned, writable).
    pub subscription_pda: usize,
    /// The event authority.
    pub event_authority: usize,
    /// This program.
    pub self_program: usize,
}

impl CancelSubscriptionAccounts {
    /// The verdict of [`Self::try_from`].
    pub open spec fn verdict(accounts: Seq<AccountInfo>) -> Result<Self, SubscriptionsError> {
        if accounts.len() != 5 {
            Err(SubscriptionsError::NotEnoughAccountKeys)
        } else if !accounts[0].is_signer {
            Err(SubscriptionsError::NotSigner)
        } else if !accounts[2].spec_owned_by_program() {
            Err(SubscriptionsError::InvalidAccountOwner)
        } else if !accounts[2].is_writable {
            Err(SubscriptionsError::AccountNotWritable)
        } else {
            Ok(
                CancelSubscriptionAccounts {
                    subscriber: 0,
                    plan_pda: 1,
                    subscription_pda: 2,
                    event_authority: 3,
                    self_program: 4,
                },
            )
        }
    }

    /// Picks and checks exactly five accounts: subscriber, plan,
    /// subscription, event authority, this program.
    pub fn try_from(accounts: &[AccountInfo]) -> (r: Result<Self, SubscriptionsError>)
        ensures
            r == Self::verdict(accounts@),
    {
        if accounts.len() != 5 {
            return Err(SubscriptionsError::NotEnoughAccountKeys);
        }
        SignerAccount::check(&accounts[0])?;
        ProgramAccount::check(&accounts[2])?;
        WritableAccount::check(&accounts[2])?;
        Ok(
            CancelSubscriptionAccounts {
                subscriber: 0,
                plan_pda: 1,
                subscription_pda: 2,
                event_authority: 3,
                self_program: 4,
            },
        )
    }
}

/// What loading a subscription account's data gives: refused when it is at
/// another schema version, else the record it holds (read at least
/// `V1_LEN` bytes long).
pub open spec fn subscription_account_verdict(data: Seq<u8>) -> Result<SubscriptionDelegation, SubscriptionsError> {
    if data.len() >= 2 && data[1] != CURRENT_VERSION {
        Err(SubscriptionsError::MigrationRequired)
    } else {
        SubscriptionDelegation::revoke_load_verdict(data)
    }
}

/// Loads a subscription account's data (see [`subscription_account_verdict`]).
pub fn load_subscription_account(data: &[u8]) -> (r: Result<SubscriptionDelegation, SubscriptionsError>)
    ensures
        r == subscription_account_verdict(data@),
{
    if data.len() >= 2 {
        check_version(data[1])?;
    }
    let loaded = SubscriptionDelegation::load_for_revoke(data);
    proof {
        SubscriptionDelegation::lemma_revoke_load_verdict(data@, loaded);
    }
    loaded
}

/// What the plan account holds: `None` once this program no longer owns it
/// (closed), else the plan its data loads as, or why it does not.
pub open spec fn plan_account_content(plan: AccountInfo) -> Result<Option<Plan>, SubscriptionsError> {
    if !plan.spec_owned_by_program() {
        Ok(None)
    } else {
        match Plan::load_verdict(plan.data@) {
            Err(e) => Err(e),
            Ok(p) => Ok(Some(p)),
        }
    }
}

/// Reads the plan account (see [`plan_account_content`]).
pub fn load_plan_account(plan: &AccountInfo) -> (r: Result<Option<Plan>, SubscriptionsError>)
    ensures
        r == plan_account_content(*plan),
{
    if !plan.owned_by_program() {
        return Ok(None);
    }
    let loaded = Plan::load(plan.data.as_slice());
    proof {
        Plan::lemma_load_verdict(plan.data@, loaded);
    }
    match loaded {
        Ok(p) => Ok(Some(p)),
        Err(e) => Err(e),
    }
}

/// The checks a cancellation makes before it reads the plan: current
/// version, the subscriber's own subscription, not yet cancelled, and bound
/// to the plan account given.
pub open spec fn cancel_checks(sub: SubscriptionDelegation, subscriber: Seq<u8>, plan_address: Seq<u8>) -> Result<
    (),
    SubscriptionsError,
> {
    if version_verdict(sub.header.version) is Err {
        Err(SubscriptionsError::MigrationRequired)
    } else if sub.header.delegator@ != subscriber {
        Err(SubscriptionsError::Unauthorized)
    } else if sub.expires_at_ts != 0 {
        Err(SubscriptionsError::SubscriptionAlreadyCancelled)
    } else if sub.header.delegatee@ != plan_address {
        Err(SubscriptionsError::SubscriptionPlanMismatch)
    } else {
        Ok(())
    }
}

fn check_cancellable(sub: &SubscriptionDelegation, subscriber: &Address, plan_address: &Address) -> (r: Result<
    (),
    SubscriptionsError,
>)
    ensures
        r == cancel_checks(*sub, subscriber@, plan_address@),
{
    check_version(sub.header.version)?;
    if !sub.header.delegator.equals(subscriber) {
        return Err(SubscriptionsError::Unauthorized);
    }
    if sub.expires_at_ts != 0 {
        return Err(SubscriptionsError::SubscriptionAlreadyCancelled);
    }
    if !sub.header.delegatee.equals(plan_address) {
        return Err(SubscriptionsError::SubscriptionPlanMismatch);
    }
    Ok(())
}

/// The verdict of a `CancelSubscription` instruction over its accounts at
/// `current_ts`, in the order the checks are made: the accounts, the
/// subscription's version and data, the checks of [`cancel_checks`], and
/// only then the plan account, which decides the expiry. Gives the
/// subscription with its expiry set.
pub open spec fn cancel_accounts_verdict(accounts: Seq<AccountInfo>, current_ts: i64) -> Result<
    SubscriptionDelegation,
    SubscriptionsError,
> {
    match CancelSubscriptionAccounts::verdict(accounts) {
        Err(e) => Err(e),
        Ok(_) => match subscription_account_verdict(accounts[2].data@) {
            Err(e) => Err(e),
            Ok(sub) => if cancel_checks(sub, accounts[0].address@, accounts[1].address@) is Err {
                Err(cancel_checks(sub, accounts[0].address@, accounts[1].address@)->Err_0)
            } else {
                match plan_account_content(accounts[1]) {
                    Err(e) => Err(e),
                    Ok(plan) => match cancel_expiry(sub, plan, current_ts) {
                        Err(e) => Err(e),
                        Ok(x) => Ok(SubscriptionDelegation { expires_at_ts: x, ..sub }),
                    },
                }
            },
        },
    }
}

/// Whether a cancellation over `accounts` that reaches the period
/// arithmetic finds a period within machine limits (see
/// [`cancel_period_in_range`]).
pub open spec fn cancel_accounts_in_range(accounts: Seq<AccountInfo>) -> bool {
    match CancelSubscriptionAccounts::verdict(accounts) {
        Err(_) => true,
        Ok(_) => match subscription_account_verdict(accounts[2].data@) {
            Err(_) => true,
            Ok(sub) => cancel_checks(sub, accounts[0].address@, accounts[1].address@) is Err || match plan_account_content(
                accounts[1],
            ) {
                Err(_) => true,
                Ok(plan) => cancel_period_in_range(sub, plan),
            },
        },
    }
}

/// Tests [`cancel_accounts_in_range`]: `false` exactly when a cancellation
/// over `accounts` would reach a period of zero hours, or one too long to
/// count in seconds.
pub fn period_in_range(accounts: &[AccountInfo]) -> (b: bool)
    ensures
        b == cancel_accounts_in_range(accounts@),
{
    if CancelSubscriptionAccounts::try_from(accounts).is_err() {
        return true;
    }
    let sub = match load_subscription_account(accounts[2].data.as_slice()) {
        Ok(s) => s,
        Err(_) => {
            return true;
        },
    };
    if check_cancellable(&sub, &accounts[0].address, &accounts[1].address).is_err() {
        return true;
    }
    match load_plan_account(&accounts[1]) {
        Err(_) => true,
        Ok(None) => true,
        Ok(Some(p)) => {
            if sub.check_plan_terms(&p.data.terms).is_err() {
                return true;
            }
            let hours = sub.terms.period_hours;
            if hours == 0 {
                return false;
            }
            match hours.checked_mul(3600) {
                Some(secs) => secs <= 0x7fff_ffff_ffff_ffffu64,
                None => false,
            }
        },
    }
}

/// Decides a `CancelSubscription` instruction (see
/// [`cancel_accounts_verdict`]): the subscription to write back, its expiry
/// set. The plan account is read only after the subscription's own checks.
pub fn process(accounts: &[AccountInfo], current_ts: i64) -> (r: Result<SubscriptionDelegation, SubscriptionsError>)
    requires
        cancel_accounts_in_range(accounts@),
    ensures
        r == cancel_accounts_verdict(accounts@, current_ts),
{
    let _picked = CancelSubscriptionAccounts::try_from(accounts)?;
    let mut sub = load_subscription_account(accounts[2].data.as_slice())?;
    check_cancellable(&sub, &accounts[0].address, &accounts[1].address)?;
    let plan = load_plan_account(&accounts[1])?;
    let plan_ref: Option<&Plan> = match &plan {
        Some(p) => Some(p),
        None => None,
    };
    cancel(&mut sub, &accounts[0].address, &accounts[1].address, plan_ref, current_ts)?;
    Ok(sub)
}

} // verus!
