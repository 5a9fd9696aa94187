use vstd::prelude::*;
use crate::validation::spec_is_expired;
use crate::token_account::spec_associated_token_address;
use crate::state::subscription_authority::SubscriptionAuthority;

use crate::accounts::{AccountInfo, ProgramAccount, SignerAccount, SubscriptionAuthorityAccount, WritableAccount};
use crate::errors::SubscriptionsError;
use crate::events::RecurringTransferEvent;
use crate::instructions::reclaim_excess_rent::delegation_version_verdict;
use crate::instructions::transfer::{apply_recurring_transfer, check_version, recurring_transfer_verdict, TransferData};
use crate::instructions::transfer_fixed_delegation::fixed_transfer_accounts_verdict;
use crate::state::recurring_delegation::RecurringDelegation;
use crate::token_interface::{TokenAccountInterface, TokenProgramInterface};
use crate::token_account::{delegated_transfer_verdict, get_token_account_owner, transfer_with_delegate};

verus! {

/// The verdict of a `TransferRecurring` instruction at `current_ts` over
/// the same eight accounts as a fixed transfer: the delegation with its
/// period rolled forward and the pull counted, and the SubscriptionAuthority
/// bump that signs the token transfer.
pub open spec fn transfer_recurring_verdict(accounts: Seq<AccountInfo>, transfer: TransferData, current_ts: i64) -> Result<
    (RecurringDelegation, u8),
    SubscriptionsError,
> {
    if fixed_transfer_accounts_verdict(accounts) is Err {
        Err(fixed_transfer_accounts_verdict(accounts)->Err_0)
    } else if delegation_version_verdict(accounts[0].data@) is Err {
        Err(SubscriptionsError::MigrationRequired)
    } else {
        match RecurringDelegation::load_verdict(accounts[0].data@) {
            Err(e) => Err(e),
            Ok(d) => {
                let v = recurring_transfer_verdict(
                    d,
                    transfer,
                    accounts[5].address@,
                    accounts[1].address@,
                    current_ts,
                );
                if v.0 is Err {
                    Err(v.0->Err_0)
                } else if accounts[3].data@.len() < 64 {
                    Err(SubscriptionsError::InvalidAccountData)
                } else {
                    match delegated_transfer_verdict(
                        transfer.delegator@,
                        transfer.mint@,
                        d.header.init_id,
                        accounts[1].data@,
                        accounts[2].address@,
                        accounts[2].data@,
                        accounts[3].data@,
                        accounts[4].address@,
                    ) {
                        Err(e) => Err(e),
                        Ok(bump) => Ok(
                            (
                                RecurringDelegation {
                                    current_period_start_ts: v.1,
                                    amount_pulled_in_period: v.2,
                                    ..d
                                },
                                bump,
                            ),
                        ),
                    }
                }
            },
        }
    }
}

/// The end of the period that starts at `start` and lasts `length`
/// seconds, wrapping past `i64::MAX` as the sum of the two does.
pub open spec fn period_end(start: i64, length: u64) -> i64 {
    if start + length > i64::MAX {
        (start + length - 0x1_0000_0000_0000_0000int) as i64
    } else {
        (start + length) as i64
    }
}

/// Decides a `TransferRecurring` instruction: checks the accounts, who may
/// pull and the per-period allowance (rolling the period forward), and the
/// token accounts of the transfer. Returns the updated delegation, the
/// signing bump, and the event to emit.
pub fn process(accounts: &[AccountInfo], transfer: &TransferData, current_ts: i64) -> (r: Result<
    (RecurringDelegation, u8, RecurringTransferEvent),
    SubscriptionsError,
>)
    ensures
        match r {
            Ok((d, bump, event)) => {
                &&& transfer_recurring_verdict(accounts@, *transfer, current_ts) == Ok::<
                    (RecurringDelegation, u8),
                    SubscriptionsError,
                >((d, bump))
                &&& event.delegation == accounts@[0].address
                &&& event.delegator == transfer.delegator
                &&& event.delegatee == accounts@[5].address
                &&& event.mint == transfer.mint
                &&& event.amount == transfer.amount
                &&& event.period_start_ts == d.current_period_start_ts
                &&& event.period_end_ts == period_end(d.current_period_start_ts, d.period_length_s)
                &&& event.amount_pulled_in_period == d.amount_pulled_in_period
                &&& event.receiver@ == accounts@[3].data@.subrange(32, 64)
            },
            Err(e) => transfer_recurring_verdict(accounts@, *transfer, current_ts) == Err::<
                (RecurringDelegation, u8),
                SubscriptionsError,
            >(e),
        },
{
    if accounts.len() != 8 {
        return Err(SubscriptionsError::NotEnoughAccountKeys);
    }
    let delegation_account = &accounts[0];
    let authority = &accounts[1];
    let delegator_ata = &accounts[2];
    let receiver_ata = &accounts[3];
    let token_program = &accounts[4];
    let delegatee = &accounts[5];
    ProgramAccount::check(delegation_account)?;
    WritableAccount::check(delegation_account)?;
    WritableAccount::check(delegator_ata)?;
    WritableAccount::check(receiver_ata)?;
    SubscriptionAuthorityAccount::check(authority)?;
    TokenProgramInterface::check(token_program)?;
    TokenAccountInterface::check_with_program(delegator_ata, token_program)?;
    TokenAccountInterface::check_with_program(receiver_ata, token_program)?;
    SignerAccount::check(delegatee)?;
    let data = delegation_account.data.as_slice();
    if data.len() >= 2 {
        check_version(data[1])?;
    }
    let loaded = RecurringDelegation::load(data);
    proof {
        RecurringDelegation::lemma_load_verdict(data@, loaded);
    }
    let mut d = loaded?;
    apply_recurring_transfer(&mut d, transfer, &delegatee.address, &authority.address, current_ts)?;
    let receiver = get_token_account_owner(receiver_ata.data.as_slice())?;
    let bump = transfer_with_delegate(
        &transfer.delegator,
        &transfer.mint,
        d.header.init_id,
        authority.data.as_slice(),
        &delegator_ata.address,
        delegator_ata.data.as_slice(),
        receiver_ata.data.as_slice(),
        &token_program.address,
    )?;
    let event = RecurringTransferEvent::new(
        delegation_account.address,
        transfer.delegator,
        delegatee.address,
        transfer.mint,
        transfer.amount,
        d.current_period_start_ts,
        d.current_period_start_ts.wrapping_add_unsigned(d.period_length_s),
        d.amount_pulled_in_period,
        receiver,
    );
    Ok((d, bump, event))
}

/// The SubscriptionAuthority moves tokens only when a delegation authorizes
/// it: an accepted recurring transfer is pulled by the delegation's signing
/// delegatee, from the recorded delegator's associated token account, under
/// the delegation's own SubscriptionAuthority, after the delegation starts
/// and before it expires, and the period's pulled total stays within the
/// per-period amount.
pub proof fn law_recurring_transfer_needs_authorizing_delegation(
    accounts: Seq<AccountInfo>,
    transfer: TransferData,
    current_ts: i64,
)
    requires
        transfer_recurring_verdict(accounts, transfer, current_ts) is Ok,
    ensures
        ({
            let d = RecurringDelegation::load_verdict(accounts[0].data@)->Ok_0;
            let a = SubscriptionAuthority::load_verdict(accounts[1].data@)->Ok_0;
            let after = transfer_recurring_verdict(accounts, transfer, current_ts)->Ok_0.0;
            &&& RecurringDelegation::load_verdict(accounts[0].data@) is Ok
            &&& SubscriptionAuthority::load_verdict(accounts[1].data@) is Ok
            &&& accounts[5].is_signer
            &&& d.header.delegatee@ == accounts[5].address@
            &&& d.header.delegator@ == transfer.delegator@
            &&& d.subscription_authority@ == accounts[1].address@
            &&& d.mint@ == transfer.mint@
            &&& a.user@ == transfer.delegator@ && a.token_mint@ == transfer.mint@
            &&& a.init_id == d.header.init_id
            &&& spec_associated_token_address(transfer.delegator@, accounts[4].address@, transfer.mint@)
                == Some(accounts[2].address@)
            &&& transfer.amount > 0
            &&& !spec_is_expired(d.expiry_ts, current_ts)
            &&& d.current_period_start_ts <= current_ts
            &&& after.amount_pulled_in_period <= d.amount_per_period
            &&& after.amount_pulled_in_period >= transfer.amount
            &&& after == RecurringDelegation {
                current_period_start_ts: after.current_period_start_ts,
                amount_pulled_in_period: after.amount_pulled_in_period,
                ..d
            }
        }),
{
}

} // verus!

