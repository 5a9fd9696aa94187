use vstd::prelude::*;

use crate::accounts::{AccountInfo, ProgramAccount, SignerAccount, WritableAccount};
use crate::errors::SubscriptionsError;
use crate::instructions::revoke_abandoned_delegation::{authority_is_dead, check_authority_dead};
use crate::pda::{find_subscription_authority_pda, program_id_bytes, spec_find_program_address, subscription_authority_seeds};
use crate::state::plan::Plan;
use crate::state::subscription_delegation::SubscriptionDelegation;

verus! {

/// The accounts of a `RevokeAbandonedSubscription` instruction, by index.
pub struct RevokeAbandonedSubscriptionAccounts {
    /// The recorded payer reclaiming the rent (signer, writable).
    pub payer: usize,
    /// The subscription to close (writable, program-owned).
    pub subscription_account: usize,
    /// The subscriber's SubscriptionAuthority; may be closed.
    pub subscription_authority: usize,
    /// The plan the subscription is bound to.
    pub plan_pda: usize,
}

impl RevokeAbandonedSubscriptionAccounts {
    /// The verdict of [`Self::try_from`].
    pub open spec fn verdict(accounts: Seq<AccountInfo>) -> Result<Self, SubscriptionsError> {
        if accounts.len() < 4 {
            Err(SubscriptionsError::NotEnoughAccountKeys)
        } else if !accounts[0].is_signer {
            Err(SubscriptionsError::NotSigner)
        } else if !accounts[0].is_writable {
            Err(SubscriptionsError::AccountNotWritable)
        } else if !accounts[1].is_writable {
            Err(SubscriptionsError::AccountNotWritable)
        } else if !accounts[1].spec_owned_by_program() {
            Err(SubscriptionsError::InvalidAccountOwner)
        } else {
            Ok(RevokeAbandonedSubscriptionAccounts { payer: 0, subscription_account: 1, subscription_authority: 2, plan_pda: 3 })
        }
    }

    /// Picks and checks the accounts.
    pub fn try_from(accounts: &[AccountInfo]) -> (r: Result<Self, SubscriptionsError>)
        ensures
            r == Self::verdict(accounts@),
    {
        if accounts.len() < 4 {
            return Err(SubscriptionsError::NotEnoughAccountKeys);
        }
        SignerAccount::check(&accounts[0])?;
        WritableAccount::check(&accounts[0])?;
        WritableAccount::check(&accounts[1])?;
        ProgramAccount::check(&accounts[1])?;
        Ok(RevokeAbandonedSubscriptionAccounts { payer: 0, subscription_account: 1, subscription_authority: 2, plan_pda: 3 })
    }
}

/// The verdict of a `RevokeAbandonedSubscription` instruction over
/// `accounts` (payer, subscription, the subscriber's SubscriptionAuthority,
/// the plan): the recorded payer may close the subscription once the
/// subscriber's authority for the plan's mint is dead. The mint is read
/// from the bound plan, never from the supplied authority.
pub open spec fn revoke_abandoned_subscription_verdict(accounts: Seq<AccountInfo>) -> Result<
    (),
    SubscriptionsError,
> {
    if accounts.len() < 4 {
        Err(SubscriptionsError::NotEnoughAccountKeys)
    } else if !accounts[0].is_signer {
        Err(SubscriptionsError::NotSigner)
    } else if !accounts[0].is_writable {
        Err(SubscriptionsError::AccountNotWritable)
    } else if !accounts[1].is_writable {
        Err(SubscriptionsError::AccountNotWritable)
    } else if !accounts[1].spec_owned_by_program() {
        Err(SubscriptionsError::InvalidAccountOwner)
    } else {
        match SubscriptionDelegation::revoke_load_verdict(accounts[1].data@) {
            Err(e) => Err(e),
            Ok(sub) => if sub.header.payer@ != accounts[0].address@ {
                Err(SubscriptionsError::Unauthorized)
            } else if sub.header.delegatee@ != accounts[3].address@ {
                Err(SubscriptionsError::SubscriptionPlanMismatch)
            } else if !accounts[3].spec_owned_by_program() {
                Err(SubscriptionsError::PlanClosed)
            } else {
                match Plan::load_verdict(accounts[3].data@) {
                    Err(e) => Err(e),
                    Ok(plan) => {
                        let pda = spec_find_program_address(
                            subscription_authority_seeds(sub.header.delegator@, plan.data.mint@),
                            program_id_bytes(),
                        );
                        if pda is None || pda.unwrap().0 != accounts[2].address@ {
                            Err(SubscriptionsError::InvalidSubscriptionAuthorityPda)
                        } else if !authority_is_dead(accounts[2], sub.header.init_id) {
                            Err(SubscriptionsError::Unauthorized)
                        } else {
                            Ok(())
                        }
                    },
                }
            },
        }
    }
}

/// Decides a `RevokeAbandonedSubscription` instruction; on success the
/// subscription account (`accounts[1]`) is closed to the payer
/// (`accounts[0]`).
pub fn process(accounts: &[AccountInfo]) -> (r: Result<(), SubscriptionsError>)
    ensures
        r == revoke_abandoned_subscription_verdict(accounts@),
{
    let picked = RevokeAbandonedSubscriptionAccounts::try_from(accounts)?;
    let payer = &accounts[picked.payer];
    let subscription_account = &accounts[picked.subscription_account];
    let authority_account = &accounts[picked.subscription_authority];
    let plan_account = &accounts[picked.plan_pda];
    let loaded = SubscriptionDelegation::load_for_revoke(subscription_account.data.as_slice());
    proof {
        SubscriptionDelegation::lemma_revoke_load_verdict(subscription_account.data@, loaded);
    }
    let sub = loaded?;
    if !sub.header.payer.equals(&payer.address) {
        return Err(SubscriptionsError::Unauthorized);
    }
    if !sub.header.delegatee.equals(&plan_account.address) {
        return Err(SubscriptionsError::SubscriptionPlanMismatch);
    }
    if !plan_account.owned_by_program() {
        return Err(SubscriptionsError::PlanClosed);
    }
    let loaded_plan = Plan::load(plan_account.data.as_slice());
    proof {
        Plan::lemma_load_verdict(plan_account.data@, loaded_plan);
    }
    let plan = loaded_plan?;
    let expected = match find_subscription_authority_pda(&sub.header.delegator, &plan.data.mint) {
        Some((a, _)) => a,
        None => {
            return Err(SubscriptionsError::InvalidSubscriptionAuthorityPda);
        },
    };
    if !expected.equals(&authority_account.address) {
        return Err(SubscriptionsError::InvalidSubscriptionAuthorityPda);
    }
    if !check_authority_dead(authority_account, sub.header.init_id) {
        return Err(SubscriptionsError::Unauthorized);
    }
    Ok(())
}

/// A still-billable subscription is never closed here: the revoke succeeds
/// only for the recorded payer, and only when the subscriber's authority
/// for the bound plan's mint is dead.
pub proof fn law_only_abandoned_subscriptions_close(accounts: Seq<AccountInfo>)
    requires
        revoke_abandoned_subscription_verdict(accounts) is Ok,
    ensures
        ({
            let sub = SubscriptionDelegation::revoke_load_verdict(accounts[1].data@)->Ok_0;
            let plan = Plan::load_verdict(accounts[3].data@)->Ok_0;
            &&& accounts[0].is_signer
            &&& sub.header.payer@ == accounts[0].address@
            &&& sub.header.delegatee@ == accounts[3].address@
            &&& spec_find_program_address(
                subscription_authority_seeds(sub.header.delegator@, plan.data.mint@),
                program_id_bytes(),
            ).unwrap().0 == accounts[2].address@
            &&& authority_is_dead(accounts[2], sub.header.init_id)
        }),
{
}

} // verus!
