use vstd::prelude::*;

use crate::accounts::{AccountInfo, ProgramAccount, WritableAccount};
use crate::address::Address;
use crate::errors::SubscriptionsError;
use crate::instructions::transfer::{check_version, version_verdict};
use crate::state::common::AccountDiscriminator;
use crate::state::fixed_delegation::FixedDelegation;
use crate::state::plan::Plan;
use crate::state::recurring_delegation::RecurringDelegation;
use crate::state::subscription_authority::SubscriptionAuthority;
use crate::state::subscription_delegation::SubscriptionDelegation;

verus! {

/// The version gate of a delegation account: its version byte, when it has
/// one, must be the current one.
pub open spec fn delegation_version_verdict(data: Seq<u8>) -> Result<(), SubscriptionsError> {
    if data.len() >= 2 {
        version_verdict(data[1])
    } else {
        Ok(())
    }
}

/// Who funded a program account, by its kind: the recorded payer of a
/// SubscriptionAuthority and of the fixed, recurring and subscription
/// delegations, the owner of a plan. Other kinds are refused.
pub open spec fn recorded_funder(data: Seq<u8>) -> Result<Address, SubscriptionsError> {
    if data.len() == 0 {
        Err(SubscriptionsError::InvalidAccountData)
    } else if data[0] == AccountDiscriminator::FixedDelegation.byte() {
        if delegation_version_verdict(data) is Err {
            Err(SubscriptionsError::MigrationRequired)
        } else {
            match FixedDelegation::revoke_load_verdict(data) {
                Err(e) => Err(e),
                Ok(d) => Ok(d.header.payer),
            }
        }
    } else if data[0] == AccountDiscriminator::RecurringDelegation.byte() {
        if delegation_version_verdict(data) is Err {
            Err(SubscriptionsError::MigrationRequired)
        } else {
            match RecurringDelegation::revoke_load_verdict(data) {
                Err(e) => Err(e),
                Ok(d) => Ok(d.header.payer),
            }
        }
    } else if data[0] == AccountDiscriminator::SubscriptionDelegation.byte() {
        if delegation_version_verdict(data) is Err {
            Err(SubscriptionsError::MigrationRequired)
        } else {
            match SubscriptionDelegation::revoke_load_verdict(data) {
                Err(e) => Err(e),
                Ok(d) => Ok(d.header.payer),
            }
        }
    } else if data[0] == AccountDiscriminator::SubscriptionAuthority.byte() {
        match SubscriptionAuthority::load_verdict(data) {
            Err(e) => Err(e),
            Ok(a) => Ok(a.payer),
        }
    } else if data[0] == AccountDiscriminator::Plan.byte() {
        match Plan::load_verdict(data) {
            Err(e) => Err(e),
            Ok(p) => Ok(p.owner),
        }
    } else {
        Err(SubscriptionsError::InvalidAccountDiscriminator)
    }
}

fn check_delegation_version(data: &[u8]) -> (r: Result<(), SubscriptionsError>)
    ensures
        r is Ok <==> delegation_version_verdict(data@) is Ok,
        r is Err ==> r == Err::<(), SubscriptionsError>(SubscriptionsError::MigrationRequired),
{
    if data.len() >= 2 {
        check_version(data[1])
    } else {
        Ok(())
    }
}

/// Reads who funded the account whose data is `data`.
pub fn find_recorded_funder(data: &[u8]) -> (r: Result<Address, SubscriptionsError>)
    ensures
        r == recorded_funder(data@),
{
    if data.len() == 0 {
        return Err(SubscriptionsError::InvalidAccountData);
    }
    let kind = AccountDiscriminator::try_from_u8(data[0])?;
    match kind {
        AccountDiscriminator::FixedDelegation => {
            check_delegation_version(data)?;
            let loaded = FixedDelegation::load_for_revoke(data);
            proof {
                FixedDelegation::lemma_revoke_load_verdict(data@, loaded);
            }
            Ok(loaded?.header.payer)
        },
        AccountDiscriminator::RecurringDelegation => {
            check_delegation_version(data)?;
            let loaded = RecurringDelegation::load_for_revoke(data);
            proof {
                RecurringDelegation::lemma_revoke_load_verdict(data@, loaded);
            }
            Ok(loaded?.header.payer)
        },
        AccountDiscriminator::SubscriptionDelegation => {
            check_delegation_version(data)?;
            let loaded = SubscriptionDelegation::load_for_revoke(data);
            proof {
                SubscriptionDelegation::lemma_revoke_load_verdict(data@, loaded);
            }
            Ok(loaded?.header.payer)
        },
        AccountDiscriminator::SubscriptionAuthority => {
            let loaded = SubscriptionAuthority::load(data);
            proof {
                SubscriptionAuthority::lemma_load_verdict(data@, loaded);
            }
            Ok(loaded?.payer)
        },
        AccountDiscriminator::Plan => {
            let loaded = Plan::load(data);
            proof {
                Plan::lemma_load_verdict(data@, loaded);
            }
            Ok(loaded?.owner)
        },
        _ => Err(SubscriptionsError::InvalidAccountDiscriminator),
    }
}

/// The accounts of a `ReclaimExcessRent` instruction, by index.
pub struct ReclaimExcessRentAccounts {
    /// The program account whose excess goes out (writable, program-owned).
    pub target_account: usize,
    /// The account that funded it (writable).
    pub receiver: usize,
}

impl ReclaimExcessRentAccounts {
    /// The verdict of [`Self::try_from`].
    pub open spec fn verdict(accounts: Seq<AccountInfo>) -> Result<Self, SubscriptionsError> {
        if accounts.len() != 2 {
            Err(SubscriptionsError::NotEnoughAccountKeys)
        } else if !accounts[0].is_writable {
            Err(SubscriptionsError::AccountNotWritable)
        } else if !accounts[1].is_writable {
            Err(SubscriptionsError::AccountNotWritable)
        } else if !accounts[0].spec_owned_by_program() {
            Err(SubscriptionsError::InvalidAccountOwner)
        } else {
            Ok(ReclaimExcessRentAccounts { target_account: 0, receiver: 1 })
        }
    }

    /// Picks and checks the accounts.
    pub fn try_from(accounts: &[AccountInfo]) -> (r: Result<Self, SubscriptionsError>)
        ensures
            r == Self::verdict(accounts@),
    {
        if accounts.len() != 2 {
            return Err(SubscriptionsError::NotEnoughAccountKeys);
        }
        WritableAccount::check(&accounts[0])?;
        WritableAccount::check(&accounts[1])?;
        ProgramAccount::check(&accounts[0])?;
        Ok(ReclaimExcessRentAccounts { target_account: 0, receiver: 1 })
    }
}

/// The verdict of a `ReclaimExcessRent` instruction over exactly two
/// accounts, the program account and the receiver: the receiver must be
/// the account's recorded funder.
pub open spec fn reclaim_verdict(accounts: Seq<AccountInfo>) -> Result<(), SubscriptionsError> {
    if accounts.len() != 2 {
        Err(SubscriptionsError::NotEnoughAccountKeys)
    } else if !accounts[0].is_writable {
        Err(SubscriptionsError::AccountNotWritable)
    } else if !accounts[1].is_writable {
        Err(SubscriptionsError::AccountNotWritable)
    } else if !accounts[0].spec_owned_by_program() {
        Err(SubscriptionsError::InvalidAccountOwner)
    } else {
        match recorded_funder(accounts[0].data@) {
            Err(e) => Err(e),
            Ok(funder) => if accounts[1].address@ != funder@ {
                Err(SubscriptionsError::Unauthorized)
            } else {
                Ok(())
            },
        }
    }
}

/// The lamports above the rent-exempt `minimum` of a balance of `lamports`:
/// none when the balance does not exceed it.
pub open spec fn excess_lamports(lamports: u64, minimum: u64) -> u64 {
    if lamports > minimum {
        (lamports - minimum) as u64
    } else {
        0
    }
}

/// Decides a `ReclaimExcessRent` instruction, with `rent_minimum` the
/// rent-exempt minimum of `accounts[0]`'s data size: on success returns the
/// lamports to move from `accounts[0]` to `accounts[1]`, those above the
/// minimum.
pub fn process(accounts: &[AccountInfo], rent_minimum: u64) -> (r: Result<u64, SubscriptionsError>)
    ensures
        match r {
            Ok(amount) => reclaim_verdict(accounts@) == Ok::<(), SubscriptionsError>(()) && amount
                == excess_lamports(accounts@[0].lamports, rent_minimum),
            Err(e) => reclaim_verdict(accounts@) == Err::<(), SubscriptionsError>(e),
        },
{
    let picked = ReclaimExcessRentAccounts::try_from(accounts)?;
    let target = &accounts[picked.target_account];
    let receiver = &accounts[picked.receiver];
    let funder = find_recorded_funder(target.data.as_slice())?;
    if !receiver.address.equals(&funder) {
        return Err(SubscriptionsError::Unauthorized);
    }
    if target.lamports > rent_minimum {
        Ok(target.lamports - rent_minimum)
    } else {
        Ok(0)
    }
}

/// Excess rent only ever goes where the account's rent goes on close: to
/// the recorded payer, or to the owner of a plan.
pub proof fn law_excess_goes_to_funder(accounts: Seq<AccountInfo>)
    requires
        reclaim_verdict(accounts) is Ok,
    ensures
        recorded_funder(accounts[0].data@) is Ok,
        accounts[1].address@ == recorded_funder(accounts[0].data@)->Ok_0@,
{
}

} // verus!

