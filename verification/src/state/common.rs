use vstd::prelude::*;

use crate::errors::SubscriptionsError;

verus! {

/// Schema version written into newly created accounts.
pub const CURRENT_VERSION: u8 = 1;

/// The kind of a program-owned account, stored in its first byte.
#[derive(Clone, Copy, Debug, PartialEq, Eq, Structural)]
pub enum AccountDiscriminator {
    SubscriptionAuthority,
    FixedDelegation,
    RecurringDelegation,
    SubscriptionDelegation,
    Plan,
    UpToDelegation,
    TransferContext,
}

impl AccountDiscriminator {
    /// The byte that marks this kind of account.
    pub open spec fn byte(self) -> u8 {
        match self {
            AccountDiscriminator::SubscriptionAuthority => 0,
            AccountDiscriminator::FixedDelegation => 1,
            AccountDiscriminator::RecurringDelegation => 2,
            AccountDiscriminator::SubscriptionDelegation => 3,
            AccountDiscriminator::Plan => 4,
            AccountDiscriminator::UpToDelegation => 5,
            AccountDiscriminator::TransferContext => 6,
        }
    }

    /// The byte that marks this kind of account.
    pub fn as_u8(&self) -> (b: u8)
        ensures
            b == self.byte(),
    {
        match self {
            AccountDiscriminator::SubscriptionAuthority => 0,
            AccountDiscriminator::FixedDelegation => 1,
            AccountDiscriminator::RecurringDelegation => 2,
            AccountDiscriminator::SubscriptionDelegation => 3,
            AccountDiscriminator::Plan => 4,
            AccountDiscriminator::UpToDelegation => 5,
            AccountDiscriminator::TransferContext => 6,
        }
    }

    /// The kind marked by `b`, if any.
    pub fn try_from_u8(b: u8) -> (r: Result<AccountDiscriminator, SubscriptionsError>)
        ensures
            match r {
                Ok(d) => d.byte() == b,
                Err(e) => e == SubscriptionsError::InvalidAccountDiscriminator && b > 6,
            },
            b <= 6 <==> r is Ok,
    {
        match b {
            0 => Ok(AccountDiscriminator::SubscriptionAuthority),
            1 => Ok(AccountDiscriminator::FixedDelegation),
            2 => Ok(AccountDiscriminator::RecurringDelegation),
            3 => Ok(AccountDiscriminator::SubscriptionDelegation),
            4 => Ok(AccountDiscriminator::Plan),
            5 => Ok(AccountDiscriminator::UpToDelegation),
            6 => Ok(AccountDiscriminator::TransferContext),
            _ => Err(SubscriptionsError::InvalidAccountDiscriminator),
        }
    }
}

/// Lifecycle status of a plan.
#[derive(Clone, Copy, Debug, PartialEq, Eq, Structural)]
pub enum PlanStatus {
    /// Accepting new subscriptions.
    Active,
    /// No new subscriptions; the plan ends at its `end_ts`.
    Sunset,
}

impl PlanStatus {
    /// The byte that stores this status.
    pub open spec fn byte(self) -> u8 {
        match self {
            PlanStatus::Active => 0,
            PlanStatus::Sunset => 1,
        }
    }

    /// The byte that stores this status.
    pub fn as_u8(&self) -> (b: u8)
        ensures
            b == self.byte(),
    {
        match self {
            PlanStatus::Active => 0,
            PlanStatus::Sunset => 1,
        }
    }

    /// The status stored as `b`, if any.
    pub fn try_from_u8(b: u8) -> (r: Result<PlanStatus, SubscriptionsError>)
        ensures
            match r {
                Ok(s) => s.byte() == b,
                Err(e) => e == SubscriptionsError::InvalidPlanStatus && b > 1,
            },
            b <= 1 <==> r is Ok,
    {
        match b {
            0 => Ok(PlanStatus::Active),
            1 => Ok(PlanStatus::Sunset),
            _ => Err(SubscriptionsError::InvalidPlanStatus),
        }
    }
}

/// Whether an account of `len` bytes reaches the frozen first-version size.
pub fn check_min_account_size(len: usize, min: usize) -> (r: Result<(), SubscriptionsError>)
    ensures
        r == (if len < min {
            Err(SubscriptionsError::InvalidAccountData)
        } else {
            Ok(())
        }),
{
    if len < min {
        Err(SubscriptionsError::InvalidAccountData)
    } else {
        Ok(())
    }
}

/// A finite plan end must leave room for at least one full billing period
/// after `current_time`; `0` means the plan never ends.
pub open spec fn plan_end_ts_verdict(end_ts: i64, period_hours: u64, current_time: i64) -> Result<
    (),
    SubscriptionsError,
> {
    if end_ts != 0 && end_ts < current_time + period_hours * 3600 {
        Err(SubscriptionsError::InvalidEndTs)
    } else {
        Ok(())
    }
}

/// Validates a plan end timestamp against its period length and the clock.
pub fn validate_plan_end_ts(end_ts: i64, period_hours: u64, current_time: i64) -> (r: Result<
    (),
    SubscriptionsError,
>)
    ensures
        r == plan_end_ts_verdict(end_ts, period_hours, current_time),
{
    if end_ts == 0 {
        return Ok(());
    }
    let earliest: i128 = current_time as i128 + (period_hours as i128) * 3600;
    if (end_ts as i128) < earliest {
        return Err(SubscriptionsError::InvalidEndTs);
    }
    Ok(())
}

} // verus!
