//! What the program reads of the accounts an instruction receives, and the
//! checks it makes on them.

use vstd::prelude::*;

use crate::address::{zero_address, Address};
use crate::errors::SubscriptionsError;
use crate::pda::{program_id, program_id_bytes};
use crate::state::common::AccountDiscriminator;
use crate::state::subscription_authority::SubscriptionAuthority;

verus! {

/// An account passed to an instruction: its address, flags, owning program,
/// lamports and data.
#[derive(Clone, Debug)]
pub struct AccountInfo {
    /// The account's address.
    pub address: Address,
    /// The program that owns the account.
    pub owner: Address,
    /// Whether the transaction signed for this account.
    pub is_signer: bool,
    /// Whether the account is writable in this transaction.
    pub is_writable: bool,
    /// The account's lamport balance.
    pub lamports: u64,
    /// The account's data.
    pub data: Vec<u8>,
}

impl AccountInfo {
    /// Whether this program owns the account.
    pub open spec fn spec_owned_by_program(&self) -> bool {
        self.owner@ == program_id_bytes()
    }

    /// Whether this program owns the account.
    pub fn owned_by_program(&self) -> (b: bool)
        ensures
            b == self.spec_owned_by_program(),
    {
        self.owner.equals(&program_id())
    }
}

/// Validates that an account is a transaction signer.
pub struct SignerAccount;

impl SignerAccount {
    /// Refuses an account that did not sign.
    pub fn check(account: &AccountInfo) -> (r: Result<(), SubscriptionsError>)
        ensures
            r == (if account.is_signer {
                Ok(())
            } else {
                Err(SubscriptionsError::NotSigner)
            }),
    {
        if !account.is_signer {
            return Err(SubscriptionsError::NotSigner);
        }
        Ok(())
    }
}

/// Validates that an account is marked writable in the transaction.
pub struct WritableAccount;

impl WritableAccount {
    /// Refuses an account that is not writable.
    pub fn check(account: &AccountInfo) -> (r: Result<(), SubscriptionsError>)
        ensures
            r == (if account.is_writable {
                Ok(())
            } else {
                Err(SubscriptionsError::AccountNotWritable)
            }),
    {
        if !account.is_writable {
            return Err(SubscriptionsError::AccountNotWritable);
        }
        Ok(())
    }
}

/// Validates that the account is the System Program (the all-zero address).
pub struct SystemAccount;

impl SystemAccount {
    /// Refuses any account other than the System Program.
    pub fn check(account: &AccountInfo) -> (r: Result<(), SubscriptionsError>)
        ensures
            r == (if account.address@ == zero_address() {
                Ok(())
            } else {
                Err(SubscriptionsError::NotSystemProgram)
            }),
    {
        if !account.address.is_zero() {
            return Err(SubscriptionsError::NotSystemProgram);
        }
        Ok(())
    }
}

/// Validates that an account is owned by this program.
pub struct ProgramAccount;

impl ProgramAccount {
    /// Refuses an account this program does not own.
    pub fn check(account: &AccountInfo) -> (r: Result<(), SubscriptionsError>)
        ensures
            r == (if account.spec_owned_by_program() {
                Ok(())
            } else {
                Err(SubscriptionsError::InvalidAccountOwner)
            }),
    {
        if !account.owned_by_program() {
            return Err(SubscriptionsError::InvalidAccountOwner);
        }
        Ok(())
    }
}

/// Validates that the account is a program-owned SubscriptionAuthority with
/// the right size and kind byte.
pub struct SubscriptionAuthorityAccount;

impl SubscriptionAuthorityAccount {
    /// The verdict of [`check`](Self::check).
    pub open spec fn verdict(account: AccountInfo) -> Result<(), SubscriptionsError> {
        if !account.spec_owned_by_program() {
            Err(SubscriptionsError::InvalidSubscriptionAuthorityPda)
        } else if account.data@.len() != SubscriptionAuthority::LEN {
            Err(SubscriptionsError::InvalidAccountData)
        } else if account.data@[0] != AccountDiscriminator::SubscriptionAuthority.byte() {
            Err(SubscriptionsError::InvalidAccountDiscriminator)
        } else {
            Ok(())
        }
    }

    /// Refuses anything but a program-owned SubscriptionAuthority account.
    pub fn check(account: &AccountInfo) -> (r: Result<(), SubscriptionsError>)
        ensures
            r == Self::verdict(*account),
    {
        if !account.owned_by_program() {
            return Err(SubscriptionsError::InvalidSubscriptionAuthorityPda);
        }
        if account.data.len() != SubscriptionAuthority::LEN {
            return Err(SubscriptionsError::InvalidAccountData);
        }
        if account.data[0] != AccountDiscriminator::SubscriptionAuthority.as_u8() {
            return Err(SubscriptionsError::InvalidAccountDiscriminator);
        }
        Ok(())
    }
}

/// The verdict of [`resolve_optional_payer`]: the first trailing account,
/// if any, must be a writable signer and pays; otherwise `primary` pays.
pub open spec fn optional_payer_verdict(accounts: Seq<AccountInfo>, primary: int, rem_start: int) -> Result<
    int,
    SubscriptionsError,
> {
    if rem_start < accounts.len() {
        if !accounts[rem_start].is_signer {
            Err(SubscriptionsError::NotSigner)
        } else if !accounts[rem_start].is_writable {
            Err(SubscriptionsError::AccountNotWritable)
        } else {
            Ok(rem_start)
        }
    } else {
        Ok(primary)
    }
}

/// Returns the index of the optional sponsor (a writable signer at
/// `rem_start`) if present, else `primary`.
pub fn resolve_optional_payer(accounts: &[AccountInfo], primary: usize, rem_start: usize) -> (r:
    Result<usize, SubscriptionsError>)
    ensures
        match r {
            Ok(i) => optional_payer_verdict(accounts@, primary as int, rem_start as int) == Ok::<
                int,
                SubscriptionsError,
            >(i as int),
            Err(e) => optional_payer_verdict(accounts@, primary as int, rem_start as int) == Err::<
                int,
                SubscriptionsError,
            >(e),
        },
{
    if rem_start < accounts.len() {
        SignerAccount::check(&accounts[rem_start])?;
        WritableAccount::check(&accounts[rem_start])?;
        Ok(rem_start)
    } else {
        Ok(primary)
    }
}

} // verus!
