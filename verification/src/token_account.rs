//! Reads of the fields of an SPL Token / Token-2022 token account.

use vstd::prelude::*;

use crate::address::Address;
use crate::codec::read_address;
use crate::constants::{
    TOKEN_ACCOUNT_DELEGATE_END, TOKEN_ACCOUNT_DELEGATE_OFFSET, TOKEN_ACCOUNT_DELEGATE_TAG_OFFSET,
    TOKEN_ACCOUNT_MINT_END, TOKEN_ACCOUNT_MINT_OFFSET, TOKEN_ACCOUNT_OWNER_END,
    TOKEN_ACCOUNT_OWNER_OFFSET,
};
use crate::errors::SubscriptionsError;
use crate::pda::{
    associated_token_program_id_bytes, associated_token_seeds, find_associated_token_address,
    spec_find_program_address,
};
use crate::state::subscription_authority::SubscriptionAuthority;

verus! {

fn matches_at(data: &[u8], off: usize, expected: &Address) -> (b: bool)
    requires
        off + 32 <= data@.len(),
    ensures
        b == (data@.subrange(off as int, off + 32) == expected@),
{
    let actual = read_address(data, off);
    actual.equals(expected)
}

/// Verifies that the token account's owner field matches `expected`.
pub fn check_token_account_owner(data: &[u8], expected: &Address) -> (r: Result<(), SubscriptionsError>)
    ensures
        r == (if data@.len() < TOKEN_ACCOUNT_OWNER_END {
            Err(SubscriptionsError::InvalidAccountData)
        } else if data@.subrange(32, 64) != expected@ {
            Err(SubscriptionsError::Unauthorized)
        } else {
            Ok(())
        }),
{
    if data.len() < TOKEN_ACCOUNT_OWNER_END {
        return Err(SubscriptionsError::InvalidAccountData);
    }
    if !matches_at(data, TOKEN_ACCOUNT_OWNER_OFFSET, expected) {
        return Err(SubscriptionsError::Unauthorized);
    }
    Ok(())
}

/// Verifies that the token account's mint field matches `expected`.
pub fn check_token_account_mint(data: &[u8], expected: &Address) -> (r: Result<(), SubscriptionsError>)
    ensures
        r == (if data@.len() < TOKEN_ACCOUNT_MINT_END {
            Err(SubscriptionsError::InvalidAccountData)
        } else if data@.subrange(0, 32) != expected@ {
            Err(SubscriptionsError::MintMismatch)
        } else {
            Ok(())
        }),
{
    if data.len() < TOKEN_ACCOUNT_MINT_END {
        return Err(SubscriptionsError::InvalidAccountData);
    }
    if !matches_at(data, TOKEN_ACCOUNT_MINT_OFFSET, expected) {
        return Err(SubscriptionsError::MintMismatch);
    }
    Ok(())
}

/// Reads the owner address from raw token account data.
pub fn get_token_account_owner(data: &[u8]) -> (r: Result<Address, SubscriptionsError>)
    ensures
        match r {
            Ok(owner) => data@.len() >= TOKEN_ACCOUNT_OWNER_END && owner@ == data@.subrange(32, 64),
            Err(e) => data@.len() < TOKEN_ACCOUNT_OWNER_END && e
                == SubscriptionsError::InvalidAccountData,
        },
{
    if data.len() < TOKEN_ACCOUNT_OWNER_END {
        return Err(SubscriptionsError::InvalidAccountData);
    }
    Ok(read_address(data, TOKEN_ACCOUNT_OWNER_OFFSET))
}

/// Reads the optional delegate from raw token account data: the 4-byte tag
/// at offset 72 is `0` for none and `1` for the address that follows it.
pub fn get_token_account_delegate(data: &[u8]) -> (r: Result<Option<Address>, SubscriptionsError>)
    ensures
        match r {
            Ok(None) => data@.len() >= TOKEN_ACCOUNT_DELEGATE_END && data@.subrange(72, 76) == seq![
                0u8,
                0u8,
                0u8,
                0u8,
            ],
            Ok(Some(d)) => data@.len() >= TOKEN_ACCOUNT_DELEGATE_END && data@.subrange(72, 76)
                == seq![1u8, 0u8, 0u8, 0u8] && d@ == data@.subrange(76, 108),
            Err(e) => e == SubscriptionsError::InvalidAccountData && (data@.len()
                < TOKEN_ACCOUNT_DELEGATE_END || (data@.subrange(72, 76) != seq![0u8, 0u8, 0u8, 0u8]
                && data@.subrange(72, 76) != seq![1u8, 0u8, 0u8, 0u8])),
        },
{
    if data.len() < TOKEN_ACCOUNT_DELEGATE_END {
        return Err(SubscriptionsError::InvalidAccountData);
    }
    let t = TOKEN_ACCOUNT_DELEGATE_TAG_OFFSET;
    let tag_rest_zero = data[t + 1] == 0 && data[t + 2] == 0 && data[t + 3] == 0;
    if tag_rest_zero && data[t] == 0 {
        assert(data@.subrange(72, 76) =~= seq![0u8, 0u8, 0u8, 0u8]);
        return Ok(None);
    }
    if tag_rest_zero && data[t] == 1 {
        assert(data@.subrange(72, 76) =~= seq![1u8, 0u8, 0u8, 0u8]);
        return Ok(Some(read_address(data, TOKEN_ACCOUNT_DELEGATE_OFFSET)));
    }
    assert(data@.subrange(72, 76)[0] == data@[72]);
    assert(data@.subrange(72, 76)[1] == data@[73]);
    assert(data@.subrange(72, 76)[2] == data@[74]);
    assert(data@.subrange(72, 76)[3] == data@[75]);
    Err(SubscriptionsError::InvalidAccountData)
}

/// The verdict of a token account's owner check, as [`check_token_account_owner`] gives it.
pub open spec fn owner_verdict(data: Seq<u8>, expected: Seq<u8>) -> Result<(), SubscriptionsError> {
    if data.len() < TOKEN_ACCOUNT_OWNER_END {
        Err(SubscriptionsError::InvalidAccountData)
    } else if data.subrange(32, 64) != expected {
        Err(SubscriptionsError::Unauthorized)
    } else {
        Ok(())
    }
}

/// The verdict of a token account's mint check, as [`check_token_account_mint`] gives it.
pub open spec fn mint_verdict(data: Seq<u8>, expected: Seq<u8>) -> Result<(), SubscriptionsError> {
    if data.len() < TOKEN_ACCOUNT_MINT_END {
        Err(SubscriptionsError::InvalidAccountData)
    } else if data.subrange(0, 32) != expected {
        Err(SubscriptionsError::MintMismatch)
    } else {
        Ok(())
    }
}

/// The associated token account of `wallet` for `mint` under
/// `token_program`, if one derives.
pub open spec fn spec_associated_token_address(wallet: Seq<u8>, token_program: Seq<u8>, mint: Seq<u8>) -> Option<
    Seq<u8>,
> {
    match spec_find_program_address(
        associated_token_seeds(wallet, token_program, mint),
        associated_token_program_id_bytes(),
    ) {
        Some((a, _)) => Some(a),
        None => None,
    }
}

/// The verdict of a delegated transfer from `delegator`'s associated token
/// account (address `from_address`, data `from_data`) to the token account
/// with data `to_data`: the SubscriptionAuthority (data `authority_data`)
/// must be the delegator's for `mint` at generation `init_id`, the source
/// must be the delegator's associated account for `mint` and the
/// destination of the same mint. Gives the authority's bump, which signs.
pub open spec fn delegated_transfer_verdict(
    delegator: Seq<u8>,
    mint: Seq<u8>,
    init_id: i64,
    authority_data: Seq<u8>,
    from_address: Seq<u8>,
    from_data: Seq<u8>,
    to_data: Seq<u8>,
    token_program: Seq<u8>,
) -> Result<u8, SubscriptionsError> {
    match SubscriptionAuthority::load_verdict(authority_data) {
        Err(e) => Err(e),
        Ok(a) => if a.user@ != delegator || a.token_mint@ != mint {
            Err(SubscriptionsError::InvalidDelegatePda)
        } else if a.init_id != init_id {
            Err(SubscriptionsError::StaleSubscriptionAuthority)
        } else if owner_verdict(from_data, delegator) is Err {
            Err(owner_verdict(from_data, delegator)->Err_0)
        } else if mint_verdict(from_data, mint) is Err {
            Err(mint_verdict(from_data, mint)->Err_0)
        } else if spec_associated_token_address(delegator, token_program, mint) != Some(from_address) {
            Err(SubscriptionsError::InvalidAssociatedTokenAccountDerivedAddress)
        } else if mint_verdict(to_data, mint) is Err {
            Err(mint_verdict(to_data, mint)->Err_0)
        } else {
            Ok(a.bump)
        },
    }
}

/// Decides a transfer signed by the SubscriptionAuthority PDA as the token
/// delegate (see [`delegated_transfer_verdict`]); returns the bump that
/// signs the `Transfer`.
pub fn transfer_with_delegate(
    delegator: &Address,
    mint: &Address,
    init_id: i64,
    authority_data: &[u8],
    from_address: &Address,
    from_data: &[u8],
    to_data: &[u8],
    token_program: &Address,
) -> (r: Result<u8, SubscriptionsError>)
    ensures
        r == delegated_transfer_verdict(
            delegator@,
            mint@,
            init_id,
            authority_data@,
            from_address@,
            from_data@,
            to_data@,
            token_program@,
        ),
{
    let loaded = SubscriptionAuthority::load(authority_data);
    proof {
        SubscriptionAuthority::lemma_load_verdict(authority_data@, loaded);
    }
    let authority = loaded?;
    if !authority.user.equals(delegator) || !authority.token_mint.equals(mint) {
        return Err(SubscriptionsError::InvalidDelegatePda);
    }
    if authority.init_id != init_id {
        return Err(SubscriptionsError::StaleSubscriptionAuthority);
    }
    check_token_account_owner(from_data, delegator)?;
    check_token_account_mint(from_data, mint)?;
    let expected = find_associated_token_address(delegator, token_program, mint);
    match expected {
        Some((a, _)) => {
            if !a.equals(from_address) {
                return Err(SubscriptionsError::InvalidAssociatedTokenAccountDerivedAddress);
            }
        },
        None => {
            return Err(SubscriptionsError::InvalidAssociatedTokenAccountDerivedAddress);
        },
    }
    check_token_account_mint(to_data, mint)?;
    Ok(authority.bump)
}

} // verus!

