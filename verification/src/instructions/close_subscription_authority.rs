use vstd::prelude::*;

use crate::accounts::{AccountInfo, ProgramAccount, SignerAccount, WritableAccount};
use crate::address::Address;
use crate::errors::SubscriptionsError;
use crate::pda::{program_id_bytes, spec_create_program_address, subscription_authority_seeds, verify_subscription_authority_pda};
use crate::state::subscription_authority::SubscriptionAuthority;

verus! {

/// The accounts of a `CloseSubscriptionAuthority` instruction, by index.
pub struct CloseSubscriptionAuthorityAccounts {
    /// The owner of the SubscriptionAuthority (signer, writable).
    pub user: usize,
    /// The SubscriptionAuthority PDA to close (writable, program-owned).
    pub subscription_authority: usize,
    /// The optional rent receiver, needed when a sponsor paid the rent.
    pub receiver: Option<usize>,
}

impl CloseSubscriptionAuthorityAccounts {
    /// The verdict of [`Self::try_from`].
    pub open spec fn verdict(accounts: Seq<AccountInfo>) -> Result<Self, SubscriptionsError> {
        if accounts.len() < 2 {
            Err(SubscriptionsError::NotEnoughAccountKeys)
        } else if !accounts[0].is_signer {
            Err(SubscriptionsError::NotSigner)
        } else if !accounts[0].is_writable {
            Err(SubscriptionsError::AccountNotWritable)
        } else if !accounts[1].is_writable {
            Err(SubscriptionsError::AccountNotWritable)
        } else if !accounts[1].spec_owned_by_program() {
            Err(SubscriptionsError::InvalidAccountOwner)
        } else {
            Ok(
                CloseSubscriptionAuthorityAccounts {
                    user: 0,
                    subscription_authority: 1,
                    receiver: if accounts.len() > 2 {
                        Some(2usize)
                    } else {
                        None
                    },
                },
            )
        }
    }

    /// Picks and checks the accounts: the user, the authority, then an
    /// optional receiver.
    pub fn try_from(accounts: &[AccountInfo]) -> (r: Result<Self, SubscriptionsError>)
        ensures
            r == Self::verdict(accounts@),
    {
        if accounts.len() < 2 {
            return Err(SubscriptionsError::NotEnoughAccountKeys);
        }
        SignerAccount::check(&accounts[0])?;
        WritableAccount::check(&accounts[0])?;
        WritableAccount::check(&accounts[1])?;
        ProgramAccount::check(&accounts[1])?;
        let receiver: Option<usize> = if accounts.len() > 2 {
            Some(2)
        } else {
            None
        };
        Ok(CloseSubscriptionAuthorityAccounts { user: 0, subscription_authority: 1, receiver })
    }
}

/// Where the rent of a closed SubscriptionAuthority goes: to the user when
/// the user paid it, else to a writable `receiver` that is the recorded
/// payer. Only the owning user may close, and the account must be the PDA
/// its stored user, mint and bump derive.
pub open spec fn close_authority_verdict(
    user: AccountInfo,
    authority: AccountInfo,
    receiver: Option<AccountInfo>,
) -> Result<Option<()>, SubscriptionsError> {
    match SubscriptionAuthority::load_verdict(authority.data@) {
        Err(e) => Err(e),
        Ok(a) => {
            let pda = spec_create_program_address(
                subscription_authority_seeds(a.user@, a.token_mint@).push(seq![a.bump]),
                program_id_bytes(),
            );
            if a.user@ != user.address@ {
                Err(SubscriptionsError::Unauthorized)
            } else if pda is None || pda->0 != authority.address@ {
                Err(SubscriptionsError::InvalidSubscriptionAuthorityPda)
            } else if a.payer@ == user.address@ {
                Ok(None)
            } else {
                match receiver {
                    None => Err(SubscriptionsError::NotEnoughAccountKeys),
                    Some(r) => if !r.is_writable {
                        Err(SubscriptionsError::AccountNotWritable)
                    } else if r.address@ != a.payer@ {
                        Err(SubscriptionsError::Unauthorized)
                    } else {
                        Ok(Some(()))
                    },
                }
            }
        },
    }
}

/// Decides the close of a SubscriptionAuthority: `Ok(None)` sends the rent
/// to `user`, `Ok(Some(()))` to `receiver`.
pub fn close_authority(user: &AccountInfo, authority: &AccountInfo, receiver: Option<&AccountInfo>) -> (r:
    Result<Option<()>, SubscriptionsError>)
    ensures
        r == close_authority_verdict(
            *user,
            *authority,
            match receiver {
                Some(a) => Some(*a),
                None => None,
            },
        ),
{
    let loaded = SubscriptionAuthority::load(authority.data.as_slice());
    proof {
        SubscriptionAuthority::lemma_load_verdict(authority.data@, loaded);
    }
    let a = loaded?;
    a.check_owner(&user.address)?;
    let expected = verify_subscription_authority_pda(&a.user, &a.token_mint, a.bump)?;
    if !expected.equals(&authority.address) {
        return Err(SubscriptionsError::InvalidSubscriptionAuthorityPda);
    }
    if a.payer.equals(&user.address) {
        return Ok(None);
    }
    match receiver {
        None => Err(SubscriptionsError::NotEnoughAccountKeys),
        Some(r) => {
            WritableAccount::check(r)?;
            if !r.address.equals(&a.payer) {
                return Err(SubscriptionsError::Unauthorized);
            }
            Ok(Some(()))
        },
    }
}

/// The verdict of a `CloseSubscriptionAuthority` instruction: the index of
/// the account that receives the rent of the closed authority.
pub open spec fn close_verdict(accounts: Seq<AccountInfo>) -> Result<int, SubscriptionsError> {
    match CloseSubscriptionAuthorityAccounts::verdict(accounts) {
        Err(e) => Err(e),
        Ok(_) => match close_authority_verdict(
            accounts[0],
            accounts[1],
            if accounts.len() > 2 {
                Some(accounts[2])
            } else {
                None
            },
        ) {
            Err(e) => Err(e),
            Ok(None) => Ok(0),
            Ok(Some(())) => Ok(2),
        },
    }
}

/// Decides a `CloseSubscriptionAuthority` instruction; returns the index of
/// the account that receives the rent when the authority account is closed.
pub fn process(accounts: &[AccountInfo]) -> (r: Result<usize, SubscriptionsError>)
    ensures
        match r {
            Ok(i) => close_verdict(accounts@) == Ok::<int, SubscriptionsError>(i as int),
            Err(e) => close_verdict(accounts@) == Err::<int, SubscriptionsError>(e),
        },
{
    let picked = CloseSubscriptionAuthorityAccounts::try_from(accounts)?;
    let receiver: Option<&AccountInfo> = match picked.receiver {
        Some(i) => Some(&accounts[i]),
        None => None,
    };
    match close_authority(&accounts[picked.user], &accounts[picked.subscription_authority], receiver)? {
        None => Ok(picked.user),
        Some(()) => Ok(2),
    }
}

/// Only the user who owns a SubscriptionAuthority can close it, and the
/// rent always returns to the payer recorded at creation: a sponsor is
/// paid back but cannot initiate the close.
pub proof fn law_close_authority_rules(accounts: Seq<AccountInfo>)
    requires
        close_verdict(accounts) is Ok,
    ensures
        ({
            let a = SubscriptionAuthority::load_verdict(accounts[1].data@)->Ok_0;
            let i = close_verdict(accounts)->Ok_0;
            &&& SubscriptionAuthority::load_verdict(accounts[1].data@) is Ok
            &&& accounts[0].is_signer
            &&& a.user@ == accounts[0].address@
            &&& 0 <= i < accounts.len()
            &&& accounts[i].address@ == a.payer@
        }),
{
}

} // verus!

