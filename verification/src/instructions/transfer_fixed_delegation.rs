use vstd::prelude::*;
use crate::validation::spec_is_expired;
use crate::token_account::spec_associated_token_address;
use crate::state::subscription_authority::SubscriptionAuthority;

use crate::accounts::{AccountInfo, ProgramAccount, SignerAccount, SubscriptionAuthorityAccount, WritableAccount};
use crate::errors::SubscriptionsError;
use crate::events::FixedTransferEvent;
use crate::instructions::reclaim_excess_rent::delegation_version_verdict;
use crate::instructions::transfer::{apply_fixed_transfer, check_version, fixed_transfer_verdict, TransferData};
use crate::state::fixed_delegation::FixedDelegation;
use crate::token_interface::{TokenAccountInterface, TokenProgramInterface};
use crate::token_account::{delegated_transfer_verdict, get_token_account_owner, transfer_with_delegate};

verus! {

/// What an accepted transfer against a fixed delegation leaves behind.
pub struct FixedTransferOutcome {
    /// The delegation with its allowance decremented, to write back.
    pub delegation: FixedDelegation,
    /// The SubscriptionAuthority bump that signs the token transfer.
    pub bump: u8,
    /// The event to emit.
    pub event: FixedTransferEvent,
}

/// The account checks of a fixed transfer over its eight accounts:
/// delegation, SubscriptionAuthority, delegator's token account, receiver's
/// token account, token program, delegatee, event authority, this program.
/// The token program must be SPL Token or Token-2022 and own both token
/// accounts.
pub open spec fn fixed_transfer_accounts_verdict(accounts: Seq<AccountInfo>) -> Result<(), SubscriptionsError> {
    if accounts.len() != 8 {
        Err(SubscriptionsError::NotEnoughAccountKeys)
    } else if !accounts[0].spec_owned_by_program() {
        Err(SubscriptionsError::InvalidAccountOwner)
    } else if !accounts[0].is_writable {
        Err(SubscriptionsError::AccountNotWritable)
    } else if !accounts[2].is_writable {
        Err(SubscriptionsError::AccountNotWritable)
    } else if !accounts[3].is_writable {
        Err(SubscriptionsError::AccountNotWritable)
    } else if SubscriptionAuthorityAccount::verdict(accounts[1]) is Err {
        SubscriptionAuthorityAccount::verdict(accounts[1])
    } else if TokenProgramInterface::verdict(accounts[4]) is Err {
        TokenProgramInterface::verdict(accounts[4])
    } else if TokenAccountInterface::verdict(accounts[2], accounts[4]) is Err {
        TokenAccountInterface::verdict(accounts[2], accounts[4])
    } else if TokenAccountInterface::verdict(accounts[3], accounts[4]) is Err {
        TokenAccountInterface::verdict(accounts[3], accounts[4])
    } else if !accounts[5].is_signer {
        Err(SubscriptionsError::NotSigner)
    } else {
        Ok(())
    }
}

/// The verdict of a `TransferFixed` instruction at `current_ts`: the
/// delegation with its allowance decremented and the SubscriptionAuthority
/// bump that signs the token transfer.
pub open spec fn transfer_fixed_verdict(accounts: Seq<AccountInfo>, transfer: TransferData, current_ts: i64) -> Result<
    (FixedDelegation, u8),
    SubscriptionsError,
> {
    if fixed_transfer_accounts_verdict(accounts) is Err {
        Err(fixed_transfer_accounts_verdict(accounts)->Err_0)
    } else if delegation_version_verdict(accounts[0].data@) is Err {
        Err(SubscriptionsError::MigrationRequired)
    } else {
        match FixedDelegation::load_verdict(accounts[0].data@) {
            Err(e) => Err(e),
            Ok(d) => if fixed_transfer_verdict(
                d,
                transfer,
                accounts[5].address@,
                accounts[1].address@,
                current_ts,
            ) is Err {
                Err(
                    fixed_transfer_verdict(
                        d,
                        transfer,
                        accounts[5].address@,
                        accounts[1].address@,
                        current_ts,
                    )->Err_0,
                )
            } else if accounts[3].data@.len() < 64 {
                Err(SubscriptionsError::InvalidAccountData)
            } else {
                match delegated_transfer_verdict(
                    transfer.delegator@,
                    transfer.mint@,
                    d.header.init_id,
                    accounts[1].data@,
                    accounts[2].address@,
                    accounts[2].data@,
                    accounts[3].data@,
                    accounts[4].address@,
                ) {
                    Err(e) => Err(e),
                    Ok(bump) => Ok((FixedDelegation { amount: (d.amount - transfer.amount) as u64, ..d }, bump)),
                }
            },
        }
    }
}

/// Decides a `TransferFixed` instruction: checks the accounts, who may pull
/// and the remaining allowance, and the token accounts of the transfer.
/// Returns the decremented delegation, the signing bump and the event.
pub fn process(accounts: &[AccountInfo], transfer: &TransferData, current_ts: i64) -> (r: Result<
    FixedTransferOutcome,
    SubscriptionsError,
>)
    ensures
        match r {
            Ok(o) => {
                &&& transfer_fixed_verdict(accounts@, *transfer, current_ts) == Ok::<
                    (FixedDelegation, u8),
                    SubscriptionsError,
                >((o.delegation, o.bump))
                &&& o.event.delegation == accounts@[0].address
                &&& o.event.delegator == transfer.delegator
                &&& o.event.delegatee == accounts@[5].address
                &&& o.event.mint == transfer.mint
                &&& o.event.amount == transfer.amount
                &&& o.event.remaining_amount == o.delegation.amount
                &&& o.event.receiver@ == accounts@[3].data@.subrange(32, 64)
                &&& o.event.receiver_token_account == accounts@[3].address
            },
            Err(e) => transfer_fixed_verdict(accounts@, *transfer, current_ts) == Err::<
                (FixedDelegation, u8),
                SubscriptionsError,
            >(e),
        },
{
    if accounts.len() != 8 {
        return Err(SubscriptionsError::NotEnoughAccountKeys);
    }
    let delegation_account = &accounts[0];
    let authority = &accounts[1];
    let delegator_ata = &accounts[2];
    let receiver_ata = &accounts[3];
    let token_program = &accounts[4];
    let delegatee = &accounts[5];
    ProgramAccount::check(delegation_account)?;
    WritableAccount::check(delegation_account)?;
    WritableAccount::check(delegator_ata)?;
    WritableAccount::check(receiver_ata)?;
    SubscriptionAuthorityAccount::check(authority)?;
    TokenProgramInterface::check(token_program)?;
    TokenAccountInterface::check_with_program(delegator_ata, token_program)?;
    TokenAccountInterface::check_with_program(receiver_ata, token_program)?;
    SignerAccount::check(delegatee)?;
    let data = delegation_account.data.as_slice();
    if data.len() >= 2 {
        check_version(data[1])?;
    }
    let loaded = FixedDelegation::load(data);
    proof {
        FixedDelegation::lemma_load_verdict(data@, loaded);
    }
    let mut d = loaded?;
    let remaining = apply_fixed_transfer(&mut d, transfer, &delegatee.address, &authority.address, current_ts)?;
    let receiver = get_token_account_owner(receiver_ata.data.as_slice())?;
    let bump = transfer_with_delegate(
        &transfer.delegator,
        &transfer.mint,
        d.header.init_id,
        authority.data.as_slice(),
        &delegator_ata.address,
        delegator_ata.data.as_slice(),
        receiver_ata.data.as_slice(),
        &token_program.address,
    )?;
    let event = FixedTransferEvent::new(
        delegation_account.address,
        transfer.delegator,
        delegatee.address,
        transfer.mint,
        transfer.amount,
        remaining,
        receiver,
        receiver_ata.address,
    );
    Ok(FixedTransferOutcome { delegation: d, bump, event })
}

/// The SubscriptionAuthority moves tokens only when a delegation authorizes
/// it: an accepted fixed transfer is pulled by the delegation's signing
/// delegatee, from the recorded delegator's associated token account, under
/// the delegation's own SubscriptionAuthority (that delegator's, for that
/// mint, of the delegation's generation), within the remaining allowance and
/// before expiry; and the allowance drops by exactly the amount moved.
pub proof fn law_fixed_transfer_needs_authorizing_delegation(
    accounts: Seq<AccountInfo>,
    transfer: TransferData,
    current_ts: i64,
)
    requires
        transfer_fixed_verdict(accounts, transfer, current_ts) is Ok,
    ensures
        ({
            let d = FixedDelegation::load_verdict(accounts[0].data@)->Ok_0;
            let a = SubscriptionAuthority::load_verdict(accounts[1].data@)->Ok_0;
            let after = transfer_fixed_verdict(accounts, transfer, current_ts)->Ok_0.0;
            &&& FixedDelegation::load_verdict(accounts[0].data@) is Ok
            &&& SubscriptionAuthority::load_verdict(accounts[1].data@) is Ok
            &&& accounts[5].is_signer
            &&& d.header.delegatee@ == accounts[5].address@
            &&& d.header.delegator@ == transfer.delegator@
            &&& d.subscription_authority@ == accounts[1].address@
            &&& d.mint@ == transfer.mint@
            &&& a.user@ == transfer.delegator@ && a.token_mint@ == transfer.mint@
            &&& a.init_id == d.header.init_id
            &&& spec_associated_token_address(transfer.delegator@, accounts[4].address@, transfer.mint@)
                == Some(accounts[2].address@)
            &&& 0 < transfer.amount <= d.amount
            &&& !spec_is_expired(d.expiry_ts, current_ts)
            &&& after == FixedDelegation { amount: (d.amount - transfer.amount) as u64, ..d }
        }),
{
}

} // verus!

