use vstd::prelude::*;
use crate::validation::spec_is_expired;

use crate::accounts::AccountInfo;
use crate::address::Address;
use crate::errors::SubscriptionsError;
use crate::events::UpToTransferEvent;
use crate::instructions::reclaim_excess_rent::delegation_version_verdict;
use crate::instructions::transfer::{apply_up_to_draw, check_version, up_to_draw_verdict, TransferData};
use crate::state::up_to_delegation::UpToDelegation;
use crate::token_interface::{MintInterface, TokenAccountInterface, TokenProgramInterface};
use crate::transfer_hook::{route_delegated_transfer, route_view, transfer_route_verdict, HookForwarding};
use crate::token_account::{
    check_token_account_mint, delegated_transfer_verdict, get_token_account_owner, mint_verdict,
    transfer_with_delegate,
};

verus! {

/// A token movement an accepted draw calls for: the SubscriptionAuthority
/// bump that signs it, and the hook routing (program and `TransferChecked`
/// data) when the mint has an active transfer hook.
pub type MovementView = (u8, Option<(Seq<u8>, Seq<u8>)>);

/// The verdict of the single draw against the up-to delegation account
/// `delegation`, paid from `delegator_ata` into `receiver_ata` by the
/// SubscriptionAuthority account `authority`, pulled by `delegatee`, with
/// `remaining` the hook accounts supplied: the consumed delegation, and the
/// token movement when there is one (a zero draw moves no tokens). The
/// token program must be SPL Token or Token-2022 and own both token
/// accounts and the mint; the mint account must be the transfer's, and
/// its transfer hook decides how the tokens move.
pub open spec fn transfer_up_to_verdict(
    delegation: AccountInfo,
    authority: AccountInfo,
    delegator_ata: AccountInfo,
    receiver_ata: AccountInfo,
    token_program: AccountInfo,
    token_mint: AccountInfo,
    delegatee: Seq<u8>,
    transfer: TransferData,
    remaining: Seq<Address>,
    current_ts: i64,
) -> Result<(UpToDelegation, Option<MovementView>), SubscriptionsError> {
    if TokenProgramInterface::verdict(token_program) is Err {
        Err(SubscriptionsError::IncorrectProgramId)
    } else if TokenAccountInterface::verdict(delegator_ata, token_program) is Err {
        Err(TokenAccountInterface::verdict(delegator_ata, token_program)->Err_0)
    } else if TokenAccountInterface::verdict(receiver_ata, token_program) is Err {
        Err(TokenAccountInterface::verdict(receiver_ata, token_program)->Err_0)
    } else if MintInterface::verdict(token_mint, token_program) is Err {
        Err(MintInterface::verdict(token_mint, token_program)->Err_0)
    } else if delegation_version_verdict(delegation.data@) is Err {
        Err(SubscriptionsError::MigrationRequired)
    } else {
        match UpToDelegation::load_verdict(delegation.data@) {
            Err(e) => Err(e),
            Ok(d) => if up_to_draw_verdict(d, transfer, delegatee, authority.address@, current_ts) is Err {
                Err(up_to_draw_verdict(d, transfer, delegatee, authority.address@, current_ts)->Err_0)
            } else if mint_verdict(receiver_ata.data@, transfer.mint@) is Err {
                Err(mint_verdict(receiver_ata.data@, transfer.mint@)->Err_0)
            } else if receiver_ata.data@.len() < 64 {
                Err(SubscriptionsError::InvalidAccountData)
            } else if receiver_ata.data@.subrange(32, 64) != d.recipient@ {
                Err(SubscriptionsError::UpToRecipientMismatch)
            } else if transfer.amount == 0 {
                Ok((UpToDelegation { max_amount: 0, ..d }, None))
            } else {
                match delegated_transfer_verdict(
                    transfer.delegator@,
                    transfer.mint@,
                    d.header.init_id,
                    authority.data@,
                    delegator_ata.address@,
                    delegator_ata.data@,
                    receiver_ata.data@,
                    token_program.address@,
                ) {
                    Err(e) => Err(e),
                    Ok(bump) => if token_mint.address@ != transfer.mint@ {
                        Err(SubscriptionsError::MintMismatch)
                    } else {
                        match transfer_route_verdict(
                            token_mint.address@,
                            token_mint.data@,
                            remaining,
                            transfer.amount,
                        ) {
                            Err(e) => Err(e),
                            Ok(route) => Ok((UpToDelegation { max_amount: 0, ..d }, Some((bump, route)))),
                        }
                    },
                }
            },
        }
    }
}

/// The view of a token movement.
pub open spec fn movement_view(m: Option<(u8, Option<HookForwarding>)>) -> Option<MovementView> {
    match m {
        None => None,
        Some((bump, route)) => Some((bump, route_view(route))),
    }
}

/// Decides a `TransferUpTo` instruction (see [`transfer_up_to_verdict`]):
/// returns the consumed delegation, the token movement if tokens move (a
/// hooked one forwards exactly `remaining`), and the event to emit.
pub fn process(
    delegation: &AccountInfo,
    authority: &AccountInfo,
    delegator_ata: &AccountInfo,
    receiver_ata: &AccountInfo,
    token_program: &AccountInfo,
    token_mint: &AccountInfo,
    delegatee: &Address,
    transfer: &TransferData,
    remaining: &Vec<Address>,
    current_ts: i64,
) -> (r: Result<(UpToDelegation, Option<(u8, Option<HookForwarding>)>, UpToTransferEvent), SubscriptionsError>)
    ensures
        match r {
            Ok((d, movement, event)) => {
                &&& transfer_up_to_verdict(
                    *delegation,
                    *authority,
                    *delegator_ata,
                    *receiver_ata,
                    *token_program,
                    *token_mint,
                    delegatee@,
                    *transfer,
                    remaining@,
                    current_ts,
                ) == Ok::<(UpToDelegation, Option<MovementView>), SubscriptionsError>((d, movement_view(movement)))
                &&& movement matches Some((_, Some(h))) ==> h.forwarded@ == remaining@
                &&& event == (UpToTransferEvent {
                    delegation: delegation.address,
                    delegator: transfer.delegator,
                    delegatee: *delegatee,
                    mint: transfer.mint,
                    amount: transfer.amount,
                    recipient: d.recipient,
                    receiver_token_account: receiver_ata.address,
                })
            },
            Err(e) => transfer_up_to_verdict(
                *delegation,
                *authority,
                *delegator_ata,
                *receiver_ata,
                *token_program,
                *token_mint,
                delegatee@,
                *transfer,
                remaining@,
                current_ts,
            ) == Err::<(UpToDelegation, Option<MovementView>), SubscriptionsError>(e),
        },
{
    TokenProgramInterface::check(token_program)?;
    TokenAccountInterface::check_with_program(delegator_ata, token_program)?;
    TokenAccountInterface::check_with_program(receiver_ata, token_program)?;
    MintInterface::check_with_program(token_mint, token_program)?;
    let data = delegation.data.as_slice();
    if data.len() >= 2 {
        check_version(data[1])?;
    }
    let loaded = UpToDelegation::load(data);
    proof {
        UpToDelegation::lemma_load_verdict(data@, loaded);
    }
    let mut d = loaded?;
    let recipient = apply_up_to_draw(&mut d, transfer, delegatee, &authority.address, current_ts)?;
    check_token_account_mint(receiver_ata.data.as_slice(), &transfer.mint)?;
    let receiver_owner = get_token_account_owner(receiver_ata.data.as_slice())?;
    if !receiver_owner.equals(&recipient) {
        return Err(SubscriptionsError::UpToRecipientMismatch);
    }
    let movement = if transfer.amount > 0 {
        let bump = transfer_with_delegate(
            &transfer.delegator,
            &transfer.mint,
            d.header.init_id,
            authority.data.as_slice(),
            &delegator_ata.address,
            delegator_ata.data.as_slice(),
            receiver_ata.data.as_slice(),
            &token_program.address,
        )?;
        if !token_mint.address.equals(&transfer.mint) {
            return Err(SubscriptionsError::MintMismatch);
        }
        let route = route_delegated_transfer(&token_mint.address, token_mint.data.as_slice(), remaining, transfer.amount)?;
        Some((bump, route))
    } else {
        None
    };
    let event = UpToTransferEvent::new(
        delegation.address,
        transfer.delegator,
        *delegatee,
        transfer.mint,
        transfer.amount,
        recipient,
        receiver_ata.address,
    );
    Ok((d, movement, event))
}

/// An up-to delegation pays out at most once: an accepted draw is pulled by
/// the delegation's delegatee for its recorded delegator, goes to the bound
/// recipient's token account of the delegation's mint, stays within the
/// ceiling before expiry, and leaves the delegation consumed; tokens move
/// only under the delegator's SubscriptionAuthority, and through the
/// mint's transfer hook whenever that hook is active.
pub proof fn law_up_to_draw_is_bound_and_single(
    delegation: AccountInfo,
    authority: AccountInfo,
    delegator_ata: AccountInfo,
    receiver_ata: AccountInfo,
    token_program: AccountInfo,
    token_mint: AccountInfo,
    delegatee: Seq<u8>,
    transfer: TransferData,
    remaining: Seq<Address>,
    current_ts: i64,
)
    requires
        transfer_up_to_verdict(
            delegation,
            authority,
            delegator_ata,
            receiver_ata,
            token_program,
            token_mint,
            delegatee,
            transfer,
            remaining,
            current_ts,
        ) is Ok,
    ensures
        ({
            let d = UpToDelegation::load_verdict(delegation.data@)->Ok_0;
            let (after, movement) = transfer_up_to_verdict(
                delegation,
                authority,
                delegator_ata,
                receiver_ata,
                token_program,
                token_mint,
                delegatee,
                transfer,
                remaining,
                current_ts,
            )->Ok_0;
            &&& UpToDelegation::load_verdict(delegation.data@) is Ok
            &&& d.header.delegatee@ == delegatee
            &&& d.header.delegator@ == transfer.delegator@
            &&& d.subscription_authority@ == authority.address@
            &&& d.mint@ == transfer.mint@
            &&& d.max_amount > 0
            &&& transfer.amount <= d.max_amount
            &&& !spec_is_expired(d.expiry_ts, current_ts)
            &&& receiver_ata.data@.subrange(32, 64) == d.recipient@
            &&& receiver_ata.data@.subrange(0, 32) == transfer.mint@
            &&& after == UpToDelegation { max_amount: 0, ..d }
            &&& (movement is Some <==> transfer.amount > 0)
            &&& movement matches Some((_, route)) ==> (route is Some
                <==> crate::transfer_hook::hook_program_id_outcome(token_mint.data@) matches Ok(Some(_)))
        }),
{
}

} // verus!
