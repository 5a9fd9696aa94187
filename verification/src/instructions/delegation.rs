//! Account checks and PDA creation shared by the delegation-creating
//! instructions.

use vstd::prelude::*;

use crate::accounts::{
    optional_payer_verdict, resolve_optional_payer, AccountInfo, SignerAccount, SubscriptionAuthorityAccount,
    SystemAccount, WritableAccount,
};
use crate::address::{zero_address, Address};
use crate::errors::SubscriptionsError;
use crate::pda::{delegation_seeds, find_delegation_pda, program_id_bytes, spec_find_program_address};
use crate::state::subscription_authority::SubscriptionAuthority;

verus! {

/// The accounts of a delegation-creating instruction, by index.
pub struct CreateDelegationAccounts {
    /// The token owner creating the delegation (signer, writable).
    pub delegator: usize,
    /// The delegator's SubscriptionAuthority for the mint.
    pub subscription_authority: usize,
    /// The delegation PDA to create (writable).
    pub delegation_account: usize,
    /// The party that receives transfer rights.
    pub delegatee: usize,
    /// The System Program.
    pub system_program: usize,
    /// Who funds the rent: a trailing sponsor, else the delegator.
    pub payer: usize,
}

impl CreateDelegationAccounts {
    /// The verdict of [`Self::try_from`].
    pub open spec fn verdict(accounts: Seq<AccountInfo>) -> Result<Self, SubscriptionsError> {
        if accounts.len() < 5 {
            Err(SubscriptionsError::NotEnoughAccountKeys)
        } else if !accounts[0].is_signer {
            Err(SubscriptionsError::NotSigner)
        } else if !accounts[0].is_writable {
            Err(SubscriptionsError::AccountNotWritable)
        } else if !accounts[2].is_writable {
            Err(SubscriptionsError::AccountNotWritable)
        } else if accounts[4].address@ != zero_address() {
            Err(SubscriptionsError::NotSystemProgram)
        } else if SubscriptionAuthorityAccount::verdict(accounts[1]) is Err {
            Err(SubscriptionAuthorityAccount::verdict(accounts[1])->Err_0)
        } else {
            match optional_payer_verdict(accounts, 0, 5) {
                Err(e) => Err(e),
                Ok(p) => Ok(
                    CreateDelegationAccounts {
                        delegator: 0,
                        subscription_authority: 1,
                        delegation_account: 2,
                        delegatee: 3,
                        system_program: 4,
                        payer: p as usize,
                    },
                ),
            }
        }
    }

    /// Picks and checks the accounts: delegator, SubscriptionAuthority,
    /// delegation, delegatee, System Program, then an optional sponsor.
    pub fn try_from(accounts: &[AccountInfo]) -> (r: Result<Self, SubscriptionsError>)
        ensures
            r == Self::verdict(accounts@),
            r matches Ok(a) ==> a.payer < accounts@.len(),
    {
        if accounts.len() < 5 {
            return Err(SubscriptionsError::NotEnoughAccountKeys);
        }
        SignerAccount::check(&accounts[0])?;
        WritableAccount::check(&accounts[0])?;
        WritableAccount::check(&accounts[2])?;
        SystemAccount::check(&accounts[4])?;
        SubscriptionAuthorityAccount::check(&accounts[1])?;
        let payer = resolve_optional_payer(accounts, 0, 5)?;
        Ok(
            CreateDelegationAccounts {
                delegator: 0,
                subscription_authority: 1,
                delegation_account: 2,
                delegatee: 3,
                system_program: 4,
                payer,
            },
        )
    }
}

/// The verdict of creating the delegation PDA: the account must be empty,
/// the SubscriptionAuthority the delegator's (of the expected generation,
/// when one is given), and the account the PDA of (authority, delegator,
/// delegatee, nonce). Gives the bump, the authority's generation and mint.
pub open spec fn create_delegation_verdict(
    delegator: AccountInfo,
    authority: AccountInfo,
    delegation_account: AccountInfo,
    delegatee: AccountInfo,
    nonce: u64,
    expected_init_id: Option<i64>,
) -> Result<(u8, i64, Address), SubscriptionsError> {
    if delegation_account.data@.len() > 0 {
        Err(SubscriptionsError::DelegationAlreadyExists)
    } else {
        match SubscriptionAuthority::load_verdict(authority.data@) {
            Err(e) => Err(e),
            Ok(a) => if a.user@ != delegator.address@ {
                Err(SubscriptionsError::Unauthorized)
            } else if expected_init_id matches Some(x) && a.init_id != x {
                Err(SubscriptionsError::StaleSubscriptionAuthority)
            } else {
                let pda = spec_find_program_address(
                    delegation_seeds(authority.address@, delegator.address@, delegatee.address@, nonce),
                    program_id_bytes(),
                );
                if pda is None || pda.unwrap().0 != delegation_account.address@ {
                    Err(SubscriptionsError::InvalidDelegatePda)
                } else {
                    Ok((pda.unwrap().1, a.init_id, a.token_mint))
                }
            },
        }
    }
}

/// Decides the creation of a delegation PDA (see
/// [`create_delegation_verdict`]); the account itself is then created by
/// the caller, signed with the returned bump.
pub fn create_delegation_account(
    delegator: &AccountInfo,
    authority: &AccountInfo,
    delegation_account: &AccountInfo,
    delegatee: &AccountInfo,
    nonce: u64,
    expected_init_id: Option<i64>,
) -> (r: Result<(u8, i64, Address), SubscriptionsError>)
    ensures
        r == create_delegation_verdict(
            *delegator,
            *authority,
            *delegation_account,
            *delegatee,
            nonce,
            expected_init_id,
        ),
{
    if delegation_account.data.len() > 0 {
        return Err(SubscriptionsError::DelegationAlreadyExists);
    }
    let loaded = SubscriptionAuthority::load(authority.data.as_slice());
    proof {
        SubscriptionAuthority::lemma_load_verdict(authority.data@, loaded);
    }
    let a = loaded?;
    a.check_owner(&delegator.address)?;
    if let Some(x) = expected_init_id {
        if a.init_id != x {
            return Err(SubscriptionsError::StaleSubscriptionAuthority);
        }
    }
    let (expected, bump) = match find_delegation_pda(
        &authority.address,
        &delegator.address,
        &delegatee.address,
        nonce,
    ) {
        Some(found) => found,
        None => {
            return Err(SubscriptionsError::InvalidDelegatePda);
        },
    };
    if !expected.equals(&delegation_account.address) {
        return Err(SubscriptionsError::InvalidDelegatePda);
    }
    Ok((bump, a.init_id, a.token_mint))
}

} // verus!
