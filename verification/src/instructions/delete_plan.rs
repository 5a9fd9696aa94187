use vstd::prelude::*;

use crate::accounts::{AccountInfo, ProgramAccount, SignerAccount, WritableAccount};
use crate::address::Address;
use crate::errors::SubscriptionsError;
use crate::state::plan::Plan;

verus! {

/// The verdict of `owner` deleting `plan` at `current_ts`: only the owner,
/// and only once a finite end has passed.
pub open spec fn delete_plan_verdict(plan: Plan, owner: Seq<u8>, current_ts: i64) -> Result<
    (),
    SubscriptionsError,
> {
    if plan.owner@ != owner {
        Err(SubscriptionsError::NotPlanOwner)
    } else if plan.data.end_ts == 0 || current_ts <= plan.data.end_ts {
        Err(SubscriptionsError::PlanNotExpired)
    } else {
        Ok(())
    }
}

/// Checks that `owner` may delete `plan` now.
pub fn check_plan_deletable(plan: &Plan, owner: &Address, current_ts: i64) -> (r: Result<
    (),
    SubscriptionsError,
>)
    ensures
        r == delete_plan_verdict(*plan, owner@, current_ts),
{
    if !plan.owner.equals(owner) {
        return Err(SubscriptionsError::NotPlanOwner);
    }
    if plan.data.end_ts == 0 || current_ts <= plan.data.end_ts {
        return Err(SubscriptionsError::PlanNotExpired);
    }
    Ok(())
}

/// The accounts of a `DeletePlan` instruction, by index.
pub struct DeletePlanAccounts {
    /// The plan owner (signer, writable); receives the rent.
    pub owner: usize,
    /// The plan account to close (writable, program-owned).
    pub plan_pda: usize,
}

impl DeletePlanAccounts {
    /// The verdict of [`Self::try_from`].
    pub open spec fn verdict(accounts: Seq<AccountInfo>) -> Result<Self, SubscriptionsError> {
        if accounts.len() != 2 {
            Err(SubscriptionsError::NotEnoughAccountKeys)
        } else if !accounts[0].is_signer {
            Err(SubscriptionsError::NotSigner)
        } else if !accounts[0].is_writable {
            Err(SubscriptionsError::AccountNotWritable)
        } else if !accounts[1].is_writable {
            Err(SubscriptionsError::AccountNotWritable)
        } else if !accounts[1].spec_owned_by_program() {
            Err(SubscriptionsError::InvalidAccountOwner)
        } else {
            Ok(DeletePlanAccounts { owner: 0, plan_pda: 1 })
        }
    }

    /// Picks and checks exactly two accounts: the owner and the plan.
    pub fn try_from(accounts: &[AccountInfo]) -> (r: Result<Self, SubscriptionsError>)
        ensures
            r == Self::verdict(accounts@),
    {
        if accounts.len() != 2 {
            return Err(SubscriptionsError::NotEnoughAccountKeys);
        }
        SignerAccount::check(&accounts[0])?;
        WritableAccount::check(&accounts[0])?;
        WritableAccount::check(&accounts[1])?;
        ProgramAccount::check(&accounts[1])?;
        Ok(DeletePlanAccounts { owner: 0, plan_pda: 1 })
    }
}

/// The verdict of a `DeletePlan` instruction at `current_ts`.
pub open spec fn delete_verdict(accounts: Seq<AccountInfo>, current_ts: i64) -> Result<(), SubscriptionsError> {
    match DeletePlanAccounts::verdict(accounts) {
        Err(e) => Err(e),
        Ok(_) => match Plan::load_verdict(accounts[1].data@) {
            Err(e) => Err(e),
            Ok(plan) => delete_plan_verdict(plan, accounts[0].address@, current_ts),
        },
    }
}

/// Decides a `DeletePlan` instruction; on success returns the index of the
/// account that receives the closed plan's rent: the owner's.
pub fn process(accounts: &[AccountInfo], current_ts: i64) -> (r: Result<usize, SubscriptionsError>)
    ensures
        match r {
            Ok(i) => delete_verdict(accounts@, current_ts) == Ok::<(), SubscriptionsError>(()) && i == 0,
            Err(e) => delete_verdict(accounts@, current_ts) == Err::<(), SubscriptionsError>(e),
        },
{
    let picked = DeletePlanAccounts::try_from(accounts)?;
    let loaded = Plan::load(accounts[picked.plan_pda].data.as_slice());
    proof {
        Plan::lemma_load_verdict(accounts@[1].data@, loaded);
    }
    let plan = loaded?;
    check_plan_deletable(&plan, &accounts[picked.owner].address, current_ts)?;
    Ok(picked.owner)
}

/// A plan is deleted only by its owner, only once its finite end has
/// passed, and its rent goes back to that owner.
pub proof fn law_plan_deleted_only_after_end(accounts: Seq<AccountInfo>, current_ts: i64)
    requires
        delete_verdict(accounts, current_ts) is Ok,
    ensures
        ({
            let plan = Plan::load_verdict(accounts[1].data@)->Ok_0;
            &&& Plan::load_verdict(accounts[1].data@) is Ok
            &&& accounts[0].is_signer
            &&& plan.owner@ == accounts[0].address@
            &&& plan.data.end_ts != 0
            &&& current_ts > plan.data.end_ts
        }),
{
}

} // verus!


