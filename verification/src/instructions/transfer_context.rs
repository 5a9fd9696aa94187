//! Creation of the ephemeral transfer-context account published for a
//! mint's transfer hook.

use vstd::prelude::*;

use crate::accounts::{AccountInfo, WritableAccount};
use crate::address::{zero_address, Address};
use crate::errors::SubscriptionsError;
use crate::pda::{find_transfer_context_pda, program_id_bytes, spec_find_program_address, transfer_context_seeds};
use crate::state::common::{AccountDiscriminator, CURRENT_VERSION};
use crate::state::transfer_context::TransferContext;

verus! {

/// The context PDA of `subscription_authority`, with its bump, if one derives.
pub open spec fn context_pda(subscription_authority: Seq<u8>) -> Option<(Seq<u8>, u8)> {
    spec_find_program_address(transfer_context_seeds(subscription_authority), program_id_bytes())
}

/// Whether the account at `i` is the first of `remaining` with address `a`.
pub open spec fn first_with_address(remaining: Seq<AccountInfo>, a: Seq<u8>, i: int) -> bool {
    &&& 0 <= i < remaining.len()
    &&& remaining[i].address@ == a
    &&& forall|j: int| 0 <= j < i ==> (#[trigger] remaining[j]).address@ != a
}

/// Whether some account of `remaining` has address `a`.
pub open spec fn has_address(remaining: Seq<AccountInfo>, a: Seq<u8>) -> bool {
    exists|j: int| 0 <= j < remaining.len() && (#[trigger] remaining[j]).address@ == a
}

/// The verdict of opening the transfer context of `subscription_authority`
/// among the trailing accounts `remaining`: nothing when the caller did not
/// pass the context PDA; otherwise the System Program must be passed too,
/// the context and the `initiator` must be writable, and the context is
/// created with the returned bump and filled with the returned record.
pub open spec fn open_verdict(
    remaining: Seq<AccountInfo>,
    subscription_authority: Seq<u8>,
    initiator: AccountInfo,
    delegation: Address,
    delegation_kind: AccountDiscriminator,
) -> Result<Option<(int, u8, TransferContext)>, SubscriptionsError> {
    match context_pda(subscription_authority) {
        None => Ok(None),
        Some((expected, bump)) => if !has_address(remaining, expected) {
            Ok(None)
        } else if !has_address(remaining, zero_address()) {
            Err(SubscriptionsError::NotSystemProgram)
        } else {
            let i = choose|i: int| first_with_address(remaining, expected, i);
            if !remaining[i].is_writable || !initiator.is_writable {
                Err(SubscriptionsError::AccountNotWritable)
            } else {
                Ok(
                    Some(
                        (
                            i,
                            bump,
                            TransferContext {
                                discriminator: AccountDiscriminator::TransferContext.byte(),
                                version: CURRENT_VERSION,
                                initiator: initiator.address,
                                delegation,
                                delegation_kind: delegation_kind.byte(),
                            },
                        ),
                    ),
                )
            }
        },
    }
}

fn find_first(remaining: &[AccountInfo], a: &Address) -> (r: Option<usize>)
    ensures
        match r {
            Some(i) => first_with_address(remaining@, a@, i as int),
            None => !has_address(remaining@, a@),
        },
{
    let mut i: usize = 0;
    while i < remaining.len()
        invariant
            i <= remaining@.len(),
            forall|j: int| 0 <= j < i ==> (#[trigger] remaining@[j]).address@ != a@,
        decreases remaining@.len() - i,
    {
        if remaining[i].address.equals(a) {
            return Some(i);
        }
        i = i + 1;
    }
    None
}

/// Decides the opening of the transfer context (see [`open_verdict`]):
/// the index of the context account in `remaining`, the bump that signs its
/// creation, and the record to write into it.
pub fn open(
    remaining: &[AccountInfo],
    subscription_authority: &Address,
    initiator: &AccountInfo,
    delegation: &Address,
    delegation_kind: AccountDiscriminator,
) -> (r: Result<Option<(usize, u8, TransferContext)>, SubscriptionsError>)
    ensures
        match r {
            Ok(Some((i, bump, c))) => open_verdict(
                remaining@,
                subscription_authority@,
                *initiator,
                *delegation,
                delegation_kind,
            ) == Ok::<Option<(int, u8, TransferContext)>, SubscriptionsError>(Some((i as int, bump, c))),
            Ok(None) => open_verdict(
                remaining@,
                subscription_authority@,
                *initiator,
                *delegation,
                delegation_kind,
            ) == Ok::<Option<(int, u8, TransferContext)>, SubscriptionsError>(None),
            Err(e) => open_verdict(
                remaining@,
                subscription_authority@,
                *initiator,
                *delegation,
                delegation_kind,
            ) == Err::<Option<(int, u8, TransferContext)>, SubscriptionsError>(e),
        },
{
    let (expected, bump) = match find_transfer_context_pda(subscription_authority) {
        Some(found) => found,
        None => {
            return Ok(None);
        },
    };
    let found = match find_first(remaining, &expected) {
        Some(i) => i,
        None => {
            return Ok(None);
        },
    };
    let system = find_first(remaining, &Address::zero());
    if system.is_none() {
        return Err(SubscriptionsError::NotSystemProgram);
    }
    proof {
        let c = choose|i: int| first_with_address(remaining@, expected@, i);
        assert(first_with_address(remaining@, expected@, found as int));
        if c < found {
            assert(remaining@[c].address@ != expected@);
        } else if found < c {
            assert(remaining@[found as int].address@ != expected@);
        }
    }
    WritableAccount::check(&remaining[found])?;
    WritableAccount::check(initiator)?;
    let context = TransferContext::init(TransferContext::LEN, &initiator.address, delegation, delegation_kind)?;
    Ok(Some((found, bump, context)))
}

} // verus!
