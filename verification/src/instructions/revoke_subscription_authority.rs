use vstd::prelude::*;

use crate::accounts::{AccountInfo, SignerAccount, WritableAccount};
use crate::address::Address;
use crate::errors::SubscriptionsError;
use crate::token_interface::{AssociatedTokenAccount, MintInterface, TokenAccountInterface, TokenProgramInterface};
use crate::pda::{find_subscription_authority_pda, program_id_bytes, spec_find_program_address, subscription_authority_seeds};
use crate::token_account::{
    check_token_account_mint, check_token_account_owner, get_token_account_delegate, mint_verdict, owner_verdict,
};

verus! {

/// The verdict on revoking the delegate of `user`'s token account (data
/// `ata_data`) for `mint`: `Ok(true)` when the delegate is the user's
/// SubscriptionAuthority PDA and must be revoked, `Ok(false)` when no
/// delegate is set; any other delegate is left alone and refused.
pub open spec fn revoke_delegate_verdict(ata_data: Seq<u8>, user: Seq<u8>, mint: Seq<u8>) -> Result<
    bool,
    SubscriptionsError,
> {
    if owner_verdict(ata_data, user) is Err {
        Err(owner_verdict(ata_data, user)->Err_0)
    } else if mint_verdict(ata_data, mint) is Err {
        Err(mint_verdict(ata_data, mint)->Err_0)
    } else if ata_data.len() < 108 || (ata_data.subrange(72, 76) != seq![0u8, 0u8, 0u8, 0u8]
        && ata_data.subrange(72, 76) != seq![1u8, 0u8, 0u8, 0u8]) {
        Err(SubscriptionsError::InvalidAccountData)
    } else if ata_data.subrange(72, 76) == seq![0u8, 0u8, 0u8, 0u8] {
        Ok(false)
    } else {
        let pda = spec_find_program_address(subscription_authority_seeds(user, mint), program_id_bytes());
        if pda is None || ata_data.subrange(76, 108) != pda.unwrap().0 {
            Err(SubscriptionsError::Unauthorized)
        } else {
            Ok(true)
        }
    }
}

/// Decides whether the delegate on the user's token account is the
/// SubscriptionAuthority approval to revoke (see [`revoke_delegate_verdict`]).
pub fn check_revocable_delegate(ata_data: &[u8], user: &Address, mint: &Address) -> (r: Result<
    bool,
    SubscriptionsError,
>)
    ensures
        r == revoke_delegate_verdict(ata_data@, user@, mint@),
{
    check_token_account_owner(ata_data, user)?;
    check_token_account_mint(ata_data, mint)?;
    let expected = find_subscription_authority_pda(user, mint);
    match get_token_account_delegate(ata_data)? {
        None => Ok(false),
        Some(delegate) => match expected {
            Some((a, _)) => {
                if !delegate.equals(&a) {
                    Err(SubscriptionsError::Unauthorized)
                } else {
                    Ok(true)
                }
            },
            None => Err(SubscriptionsError::Unauthorized),
        },
    }
}

/// The accounts of a `RevokeSubscriptionAuthority` instruction, by index.
pub struct RevokeSubscriptionAuthorityAccounts {
    /// The user (signer), owner of the token account.
    pub user: usize,
    /// The user's associated token account (writable).
    pub user_ata: usize,
    /// The token mint.
    pub token_mint: usize,
    /// The token program (SPL Token or Token-2022).
    pub token_program: usize,
}

impl RevokeSubscriptionAuthorityAccounts {
    /// The verdict of [`Self::try_from`].
    pub open spec fn verdict(accounts: Seq<AccountInfo>) -> Result<Self, SubscriptionsError> {
        if accounts.len() < 4 {
            Err(SubscriptionsError::NotEnoughAccountKeys)
        } else if !accounts[0].is_signer {
            Err(SubscriptionsError::NotSigner)
        } else if !accounts[1].is_writable {
            Err(SubscriptionsError::AccountNotWritable)
        } else if TokenProgramInterface::verdict(accounts[3]) is Err {
            Err(SubscriptionsError::IncorrectProgramId)
        } else if MintInterface::verdict(accounts[2], accounts[3]) is Err {
            Err(MintInterface::verdict(accounts[2], accounts[3])->Err_0)
        } else if TokenAccountInterface::verdict(accounts[1], accounts[3]) is Err {
            Err(TokenAccountInterface::verdict(accounts[1], accounts[3])->Err_0)
        } else {
            Ok(RevokeSubscriptionAuthorityAccounts { user: 0, user_ata: 1, token_mint: 2, token_program: 3 })
        }
    }

    /// Picks and checks the accounts: user, the user's token account, mint,
    /// token program; further accounts are ignored.
    pub fn try_from(accounts: &[AccountInfo]) -> (r: Result<Self, SubscriptionsError>)
        ensures
            r == Self::verdict(accounts@),
    {
        if accounts.len() < 4 {
            return Err(SubscriptionsError::NotEnoughAccountKeys);
        }
        SignerAccount::check(&accounts[0])?;
        WritableAccount::check(&accounts[1])?;
        TokenProgramInterface::check(&accounts[3])?;
        MintInterface::check_with_program(&accounts[2], &accounts[3])?;
        TokenAccountInterface::check_with_program(&accounts[1], &accounts[3])?;
        Ok(RevokeSubscriptionAuthorityAccounts { user: 0, user_ata: 1, token_mint: 2, token_program: 3 })
    }
}

/// The verdict of a `RevokeSubscriptionAuthority` instruction: `Ok(true)`
/// when the token account's delegate is the user's SubscriptionAuthority and
/// the account is the user's associated one (the `Revoke` is then due),
/// `Ok(false)` when no delegate is set (nothing to do).
pub open spec fn revoke_authority_verdict(accounts: Seq<AccountInfo>) -> Result<bool, SubscriptionsError> {
    if RevokeSubscriptionAuthorityAccounts::verdict(accounts) is Err {
        Err(RevokeSubscriptionAuthorityAccounts::verdict(accounts)->Err_0)
    } else {
        match revoke_delegate_verdict(accounts[1].data@, accounts[0].address@, accounts[2].address@) {
            Err(e) => Err(e),
            Ok(false) => Ok(false),
            Ok(true) => if AssociatedTokenAccount::verdict(accounts[1], accounts[0], accounts[2], accounts[3]) is Err {
                Err(SubscriptionsError::InvalidAssociatedTokenAccountDerivedAddress)
            } else {
                Ok(true)
            },
        }
    }
}

/// Decides a `RevokeSubscriptionAuthority` instruction (see
/// [`revoke_authority_verdict`]); on `Ok(true)` the user revokes the
/// delegate of their token account through the token program.
pub fn process(accounts: &[AccountInfo]) -> (r: Result<bool, SubscriptionsError>)
    ensures
        r == revoke_authority_verdict(accounts@),
{
    let picked = RevokeSubscriptionAuthorityAccounts::try_from(accounts)?;
    let user = &accounts[picked.user];
    let user_ata = &accounts[picked.user_ata];
    let mint = &accounts[picked.token_mint];
    let token_program = &accounts[picked.token_program];
    if !check_revocable_delegate(user_ata.data.as_slice(), &user.address, &mint.address)? {
        return Ok(false);
    }
    AssociatedTokenAccount::check(user_ata, user, mint, token_program)?;
    Ok(true)
}

} // verus!
