//! Checks that an account is the SPL Token or Token-2022 program, or a mint
//! or token account that one of them owns, and that a token account is the
//! associated one of a wallet.

use vstd::prelude::*;

use crate::accounts::AccountInfo;
use crate::constants::{
    TOKEN_2022_ACCOUNT_DISCRIMINATOR_OFFSET, TOKEN_2022_MINT_DISCRIMINATOR, TOKEN_2022_TOKEN_ACCOUNT_DISCRIMINATOR,
};
use crate::errors::SubscriptionsError;
use crate::pda::{find_associated_token_address, token_2022_program_id, token_2022_program_id_bytes, token_program_id, token_program_id_bytes};
use crate::token_account::spec_associated_token_address;

verus! {

/// Size of a mint account under SPL Token (the base of a Token-2022 mint).
pub const MINT_LEN: usize = 82;

/// Size of a token account under SPL Token (the base of a Token-2022 one).
pub const TOKEN_ACCOUNT_LEN: usize = 165;

/// Whether `address` is the SPL Token or the Token-2022 program.
pub open spec fn is_token_program(address: Seq<u8>) -> bool {
    address == token_program_id_bytes() || address == token_2022_program_id_bytes()
}

/// Whether account data of the given size and bytes is laid out as a
/// token-program account of base size `base_len`: exactly that size, or,
/// under Token-2022, longer with the account kind `kind` after the base
/// token-account size.
pub open spec fn sized_as(data: Seq<u8>, base_len: int, kind: u8, token_2022: bool) -> bool {
    ||| data.len() == base_len
    ||| (token_2022 && data.len() > TOKEN_2022_ACCOUNT_DISCRIMINATOR_OFFSET
        && data[TOKEN_2022_ACCOUNT_DISCRIMINATOR_OFFSET as int] == kind)
}

fn sized_as_exec(data: &[u8], base_len: usize, kind: u8, token_2022: bool) -> (b: bool)
    ensures
        b == sized_as(data@, base_len as int, kind, token_2022),
{
    if data.len() == base_len {
        return true;
    }
    token_2022 && data.len() > TOKEN_2022_ACCOUNT_DISCRIMINATOR_OFFSET && data[TOKEN_2022_ACCOUNT_DISCRIMINATOR_OFFSET]
        == kind
}

/// Validates that an account is the SPL Token or the Token-2022 program.
pub struct TokenProgramInterface;

impl TokenProgramInterface {
    /// The verdict of [`check`](Self::check).
    pub open spec fn verdict(account: AccountInfo) -> Result<(), SubscriptionsError> {
        if is_token_program(account.address@) {
            Ok(())
        } else {
            Err(SubscriptionsError::IncorrectProgramId)
        }
    }

    /// Refuses any program but SPL Token and Token-2022.
    pub fn check(account: &AccountInfo) -> (r: Result<(), SubscriptionsError>)
        ensures
            r == Self::verdict(*account),
    {
        if account.address.equals(&token_program_id()) || account.address.equals(&token_2022_program_id()) {
            Ok(())
        } else {
            Err(SubscriptionsError::IncorrectProgramId)
        }
    }
}

/// Validates that an account is a mint of a given token program.
pub struct MintInterface;

impl MintInterface {
    /// The verdict of [`check_with_program`](Self::check_with_program).
    pub open spec fn verdict(mint: AccountInfo, token_program: AccountInfo) -> Result<(), SubscriptionsError> {
        if mint.owner@ != token_program.address@ {
            Err(SubscriptionsError::InvalidAccountOwner)
        } else if !sized_as(
            mint.data@,
            MINT_LEN as int,
            TOKEN_2022_MINT_DISCRIMINATOR,
            token_program.address@ == token_2022_program_id_bytes(),
        ) {
            Err(SubscriptionsError::InvalidAccountData)
        } else {
            Ok(())
        }
    }

    /// Refuses an account that `token_program` does not own, or whose data
    /// is not laid out as a mint of it.
    pub fn check_with_program(mint: &AccountInfo, token_program: &AccountInfo) -> (r: Result<(), SubscriptionsError>)
        ensures
            r == Self::verdict(*mint, *token_program),
    {
        if !mint.owner.equals(&token_program.address) {
            return Err(SubscriptionsError::InvalidAccountOwner);
        }
        let token_2022 = token_program.address.equals(&token_2022_program_id());
        if !sized_as_exec(mint.data.as_slice(), MINT_LEN, TOKEN_2022_MINT_DISCRIMINATOR, token_2022) {
            return Err(SubscriptionsError::InvalidAccountData);
        }
        Ok(())
    }
}

/// Validates that an account is a token account of a given token program.
pub struct TokenAccountInterface;

impl TokenAccountInterface {
    /// The verdict of [`check_with_program`](Self::check_with_program).
    pub open spec fn verdict(account: AccountInfo, token_program: AccountInfo) -> Result<(), SubscriptionsError> {
        if account.owner@ != token_program.address@ {
            Err(SubscriptionsError::InvalidAccountOwner)
        } else if !sized_as(
            account.data@,
            TOKEN_ACCOUNT_LEN as int,
            TOKEN_2022_TOKEN_ACCOUNT_DISCRIMINATOR,
            token_program.address@ == token_2022_program_id_bytes(),
        ) {
            Err(SubscriptionsError::InvalidAccountData)
        } else {
            Ok(())
        }
    }

    /// Refuses an account that `token_program` does not own, or whose data
    /// is not laid out as a token account of it.
    pub fn check_with_program(account: &AccountInfo, token_program: &AccountInfo) -> (r: Result<
        (),
        SubscriptionsError,
    >)
        ensures
            r == Self::verdict(*account, *token_program),
    {
        if !account.owner.equals(&token_program.address) {
            return Err(SubscriptionsError::InvalidAccountOwner);
        }
        let token_2022 = token_program.address.equals(&token_2022_program_id());
        if !sized_as_exec(
            account.data.as_slice(),
            TOKEN_ACCOUNT_LEN,
            TOKEN_2022_TOKEN_ACCOUNT_DISCRIMINATOR,
            token_2022,
        ) {
            return Err(SubscriptionsError::InvalidAccountData);
        }
        Ok(())
    }
}

/// Validates that a token account is the associated token account of a
/// wallet for a mint.
pub struct AssociatedTokenAccount;

impl AssociatedTokenAccount {
    /// The verdict of [`check`](Self::check).
    pub open spec fn verdict(
        ata: AccountInfo,
        wallet: AccountInfo,
        mint: AccountInfo,
        token_program: AccountInfo,
    ) -> Result<(), SubscriptionsError> {
        if spec_associated_token_address(wallet.address@, token_program.address@, mint.address@) == Some(
            ata.address@,
        ) {
            Ok(())
        } else {
            Err(SubscriptionsError::InvalidAssociatedTokenAccountDerivedAddress)
        }
    }

    /// Refuses `ata` unless it is the address derived from `wallet`,
    /// `token_program` and `mint` under the associated token program.
    pub fn check(ata: &AccountInfo, wallet: &AccountInfo, mint: &AccountInfo, token_program: &AccountInfo) -> (r:
        Result<(), SubscriptionsError>)
        ensures
            r == Self::verdict(*ata, *wallet, *mint, *token_program),
    {
        match find_associated_token_address(&wallet.address, &token_program.address, &mint.address) {
            Some((a, _)) => if a.equals(&ata.address) {
                Ok(())
            } else {
                Err(SubscriptionsError::InvalidAssociatedTokenAccountDerivedAddress)
            },
            None => Err(SubscriptionsError::InvalidAssociatedTokenAccountDerivedAddress),
        }
    }
}

} // verus!
