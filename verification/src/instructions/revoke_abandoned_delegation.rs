use vstd::prelude::*;

use crate::accounts::{AccountInfo, ProgramAccount, SignerAccount, WritableAccount};
use crate::address::Address;
use crate::errors::SubscriptionsError;
use crate::state::common::AccountDiscriminator;
use crate::state::fixed_delegation::FixedDelegation;
use crate::state::header::Header;
use crate::state::recurring_delegation::RecurringDelegation;
use crate::state::subscription_authority::SubscriptionAuthority;

verus! {

/// Whether a SubscriptionAuthority account can no longer serve a delegation
/// created under generation `init_id`: it is closed (not this program's),
/// does not load, or has been re-created with another generation.
pub open spec fn authority_is_dead(authority: AccountInfo, init_id: i64) -> bool {
    !authority.spec_owned_by_program() || match SubscriptionAuthority::load_verdict(authority.data@) {
        Ok(a) => a.init_id != init_id,
        Err(_) => true,
    }
}

/// Decides [`authority_is_dead`] for an account.
pub fn check_authority_dead(authority: &AccountInfo, init_id: i64) -> (b: bool)
    ensures
        b == authority_is_dead(*authority, init_id),
{
    if !authority.owned_by_program() {
        return true;
    }
    let loaded = SubscriptionAuthority::load(authority.data.as_slice());
    proof {
        SubscriptionAuthority::lemma_load_verdict(authority.data@, loaded);
    }
    match loaded {
        Ok(a) => a.init_id != init_id,
        Err(_) => true,
    }
}

/// What a fixed or recurring delegation records about who may reclaim it:
/// its SubscriptionAuthority, the authority's generation, and the payer.
pub open spec fn recorded_binding(data: Seq<u8>) -> Result<(Address, i64, Address), SubscriptionsError> {
    if data[0] == AccountDiscriminator::FixedDelegation.byte() {
        match FixedDelegation::revoke_load_verdict(data) {
            Err(e) => Err(e),
            Ok(d) => Ok((d.subscription_authority, d.header.init_id, d.header.payer)),
        }
    } else if data[0] == AccountDiscriminator::RecurringDelegation.byte() {
        match RecurringDelegation::revoke_load_verdict(data) {
            Err(e) => Err(e),
            Ok(d) => Ok((d.subscription_authority, d.header.init_id, d.header.payer)),
        }
    } else {
        Err(SubscriptionsError::InvalidAccountDiscriminator)
    }
}

/// The accounts of a `RevokeAbandonedDelegation` instruction, by index.
pub struct RevokeAbandonedDelegationAccounts {
    /// The recorded payer reclaiming the rent (signer, writable).
    pub payer: usize,
    /// The fixed or recurring delegation to close (writable, program-owned).
    pub delegation_account: usize,
    /// The SubscriptionAuthority recorded on the delegation; may be closed.
    pub subscription_authority: usize,
}

impl RevokeAbandonedDelegationAccounts {
    /// The verdict of [`Self::try_from`].
    pub open spec fn verdict(accounts: Seq<AccountInfo>) -> Result<Self, SubscriptionsError> {
        if accounts.len() < 3 {
            Err(SubscriptionsError::NotEnoughAccountKeys)
        } else if !accounts[0].is_signer {
            Err(SubscriptionsError::NotSigner)
        } else if !accounts[0].is_writable {
            Err(SubscriptionsError::AccountNotWritable)
        } else if !accounts[1].is_writable {
            Err(SubscriptionsError::AccountNotWritable)
        } else if !accounts[1].spec_owned_by_program() {
            Err(SubscriptionsError::InvalidAccountOwner)
        } else {
            Ok(RevokeAbandonedDelegationAccounts { payer: 0, delegation_account: 1, subscription_authority: 2 })
        }
    }

    /// Picks and checks the accounts.
    pub fn try_from(accounts: &[AccountInfo]) -> (r: Result<Self, SubscriptionsError>)
        ensures
            r == Self::verdict(accounts@),
    {
        if accounts.len() < 3 {
            return Err(SubscriptionsError::NotEnoughAccountKeys);
        }
        SignerAccount::check(&accounts[0])?;
        WritableAccount::check(&accounts[0])?;
        WritableAccount::check(&accounts[1])?;
        ProgramAccount::check(&accounts[1])?;
        Ok(RevokeAbandonedDelegationAccounts { payer: 0, delegation_account: 1, subscription_authority: 2 })
    }
}

/// The verdict of a `RevokeAbandonedDelegation` instruction over
/// `accounts` (payer, delegation, its SubscriptionAuthority): the payer may
/// close a fixed or recurring delegation once its authority is dead.
pub open spec fn revoke_abandoned_delegation_verdict(accounts: Seq<AccountInfo>) -> Result<(), SubscriptionsError> {
    if accounts.len() < 3 {
        Err(SubscriptionsError::NotEnoughAccountKeys)
    } else if !accounts[0].is_signer {
        Err(SubscriptionsError::NotSigner)
    } else if !accounts[0].is_writable {
        Err(SubscriptionsError::AccountNotWritable)
    } else if !accounts[1].is_writable {
        Err(SubscriptionsError::AccountNotWritable)
    } else if !accounts[1].spec_owned_by_program() {
        Err(SubscriptionsError::InvalidAccountOwner)
    } else if accounts[1].data@.len() < Header::LEN {
        Err(SubscriptionsError::InvalidHeaderData)
    } else {
        match recorded_binding(accounts[1].data@) {
            Err(e) => Err(e),
            Ok((authority, init_id, payer)) => if payer@ != accounts[0].address@ {
                Err(SubscriptionsError::Unauthorized)
            } else if authority@ != accounts[2].address@ {
                Err(SubscriptionsError::Unauthorized)
            } else if !authority_is_dead(accounts[2], init_id) {
                Err(SubscriptionsError::Unauthorized)
            } else {
                Ok(())
            },
        }
    }
}

/// Decides a `RevokeAbandonedDelegation` instruction; on success the
/// delegation account (`accounts[1]`) is closed to the payer (`accounts[0]`).
pub fn process(accounts: &[AccountInfo]) -> (r: Result<(), SubscriptionsError>)
    ensures
        r == revoke_abandoned_delegation_verdict(accounts@),
{
    let picked = RevokeAbandonedDelegationAccounts::try_from(accounts)?;
    let payer = &accounts[picked.payer];
    let delegation_account = &accounts[picked.delegation_account];
    let authority_account = &accounts[picked.subscription_authority];
    let data = delegation_account.data.as_slice();
    if data.len() < Header::LEN {
        return Err(SubscriptionsError::InvalidHeaderData);
    }
    let (recorded_authority, recorded_init_id, recorded_payer) = match AccountDiscriminator::try_from_u8(
        data[0],
    )? {
        AccountDiscriminator::FixedDelegation => {
            let loaded = FixedDelegation::load_for_revoke(data);
            proof {
                FixedDelegation::lemma_revoke_load_verdict(data@, loaded);
            }
            let d = loaded?;
            (d.subscription_authority, d.header.init_id, d.header.payer)
        },
        AccountDiscriminator::RecurringDelegation => {
            let loaded = RecurringDelegation::load_for_revoke(data);
            proof {
                RecurringDelegation::lemma_revoke_load_verdict(data@, loaded);
            }
            let d = loaded?;
            (d.subscription_authority, d.header.init_id, d.header.payer)
        },
        _ => {
            return Err(SubscriptionsError::InvalidAccountDiscriminator);
        },
    };
    if !recorded_payer.equals(&payer.address) {
        return Err(SubscriptionsError::Unauthorized);
    }
    if !recorded_authority.equals(&authority_account.address) {
        return Err(SubscriptionsError::Unauthorized);
    }
    if !check_authority_dead(authority_account, recorded_init_id) {
        return Err(SubscriptionsError::Unauthorized);
    }
    Ok(())
}

/// A live delegation is never closed here: the revoke succeeds only for the
/// recorded payer and only once the recorded SubscriptionAuthority is dead.
pub proof fn law_only_abandoned_delegations_close(accounts: Seq<AccountInfo>)
    requires
        revoke_abandoned_delegation_verdict(accounts) is Ok,
    ensures
        ({
            let (authority, init_id, payer) = recorded_binding(accounts[1].data@)->Ok_0;
            &&& recorded_binding(accounts[1].data@) is Ok
            &&& accounts[0].is_signer
            &&& payer@ == accounts[0].address@
            &&& authority@ == accounts[2].address@
            &&& authority_is_dead(accounts[2], init_id)
        }),
{
}

} // verus!
