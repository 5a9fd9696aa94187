//! Program-derived addresses. The hash-and-curve search behind a PDA is
//! done by `solana-address`; what the program checks about the results is
//! verified here.

use vstd::prelude::*;

use crate::address::Address;
use crate::codec::le_u64;
use crate::errors::SubscriptionsError;

verus! {

/// The address that `solana_address::Address::try_find_program_address`
/// derives from `seeds` under `program_id`, with its bump, or `None` when
/// no bump gives an off-curve address or the seeds are out of bounds.
pub uninterp spec fn spec_find_program_address(seeds: Seq<Seq<u8>>, program_id: Seq<u8>) -> Option<
    (Seq<u8>, u8),
>;

/// The address that `solana_address::Address::create_program_address`
/// computes from `seeds` (bump included) under `program_id`, or `None` when
/// it refuses them.
pub uninterp spec fn spec_create_program_address(seeds: Seq<Seq<u8>>, program_id: Seq<u8>) -> Option<
    Seq<u8>,
>;

/// The bytes of each seed, in order.
pub open spec fn seeds_view(seeds: Seq<Vec<u8>>) -> Seq<Seq<u8>> {
    Seq::new(seeds.len(), |i: int| seeds[i]@)
}

/// Calls `solana_address::Address::try_find_program_address`; the result is
/// the named value [`spec_find_program_address`] of the seed bytes and the
/// program id. A found address is the one `create_program_address` gives
/// for the seeds followed by the found bump (the search tries bumps from 255
/// down through that function).
#[verifier::external_body]
fn try_find_program_address(seeds: &Vec<Vec<u8>>, program_id: &Address) -> (r: Option<
    (Address, u8),
>)
    ensures
        match r {
            Some((a, bump)) => spec_find_program_address(seeds_view(seeds@), program_id@) == Some(
                (a@, bump),
            ) && spec_create_program_address(seeds_view(seeds@).push(seq![bump]), program_id@) == Some(
                a@,
            ),
            None => spec_find_program_address(seeds_view(seeds@), program_id@) is None,
        },
{
    let refs: Vec<&[u8]> = seeds.iter().map(|s| s.as_slice()).collect();
    let id = solana_address::Address::new_from_array(program_id.bytes);
    match solana_address::Address::try_find_program_address(&refs, &id) {
        Some((a, bump)) => Some((Address { bytes: a.to_bytes() }, bump)),
        None => None,
    }
}

/// Calls `solana_address::Address::create_program_address`; the result is
/// the named value [`spec_create_program_address`] of the seed bytes and the
/// program id.
#[verifier::external_body]
fn create_program_address(seeds: &Vec<Vec<u8>>, program_id: &Address) -> (r: Option<Address>)
    ensures
        match r {
            Some(a) => spec_create_program_address(seeds_view(seeds@), program_id@) == Some(a@),
            None => spec_create_program_address(seeds_view(seeds@), program_id@) is None,
        },
{
    let refs: Vec<&[u8]> = seeds.iter().map(|s| s.as_slice()).collect();
    let id = solana_address::Address::new_from_array(program_id.bytes);
    match solana_address::Address::create_program_address(&refs, &id) {
        Ok(a) => Some(Address { bytes: a.to_bytes() }),
        Err(_) => None,
    }
}

/// This program's id.
pub fn program_id() -> (a: Address)
    ensures
        a@ == program_id_bytes(),
{
    let a = Address::new_from_array(
        [
            187, 199, 119, 175, 186, 104, 240, 18, 62, 192, 196, 209, 183, 238, 137, 110, 147, 1,
            201, 41, 197, 90, 6, 186, 149, 24, 33, 88, 37, 140, 21, 169,
        ],
    );
    assert(a@ =~= program_id_bytes());
    a
}

/// The bytes of this program's id.
pub open spec fn program_id_bytes() -> Seq<u8> {
    seq![
        187u8, 199, 119, 175, 186, 104, 240, 18, 62, 192, 196, 209, 183, 238, 137, 110, 147, 1,
        201, 41, 197, 90, 6, 186, 149, 24, 33, 88, 37, 140, 21, 169,
    ]
}

/// The Associated Token Account program's id.
pub fn associated_token_program_id() -> (a: Address)
    ensures
        a@ == associated_token_program_id_bytes(),
{
    let a = Address::new_from_array(
        [
            140, 151, 37, 143, 78, 36, 137, 241, 187, 61, 16, 41, 20, 142, 13, 131, 11, 90, 19, 153,
            218, 255, 16, 132, 4, 142, 123, 216, 219, 233, 248, 89,
        ],
    );
    assert(a@ =~= associated_token_program_id_bytes());
    a
}

/// The bytes of the Associated Token Account program's id.
pub open spec fn associated_token_program_id_bytes() -> Seq<u8> {
    seq![
        140u8, 151, 37, 143, 78, 36, 137, 241, 187, 61, 16, 41, 20, 142, 13, 131, 11, 90, 19, 153,
        218, 255, 16, 132, 4, 142, 123, 216, 219, 233, 248, 89,
    ]
}

/// The SPL Token program's id.
pub fn token_program_id() -> (a: Address)
    ensures
        a@ == token_program_id_bytes(),
{
    let a = Address::new_from_array(
        [
            6, 221, 246, 225, 215, 101, 161, 147, 217, 203, 225, 70, 206, 235, 121, 172, 28, 180,
            133, 237, 95, 91, 55, 145, 58, 140, 245, 133, 126, 255, 0, 169,
        ],
    );
    assert(a@ =~= token_program_id_bytes());
    a
}

/// The bytes of the SPL Token program's id.
pub open spec fn token_program_id_bytes() -> Seq<u8> {
    seq![
        6u8, 221, 246, 225, 215, 101, 161, 147, 217, 203, 225, 70, 206, 235, 121, 172, 28, 180,
        133, 237, 95, 91, 55, 145, 58, 140, 245, 133, 126, 255, 0, 169,
    ]
}

/// The Token-2022 program's id.
pub fn token_2022_program_id() -> (a: Address)
    ensures
        a@ == token_2022_program_id_bytes(),
{
    let a = Address::new_from_array(
        [
            6, 221, 246, 225, 238, 117, 143, 222, 24, 66, 93, 188, 228, 108, 205, 218, 182, 26, 252,
            77, 131, 185, 13, 39, 254, 189, 249, 40, 216, 161, 139, 252,
        ],
    );
    assert(a@ =~= token_2022_program_id_bytes());
    a
}

/// The bytes of the Token-2022 program's id.
pub open spec fn token_2022_program_id_bytes() -> Seq<u8> {
    seq![
        6u8, 221, 246, 225, 238, 117, 143, 222, 24, 66, 93, 188, 228, 108, 205, 218, 182, 26, 252,
        77, 131, 185, 13, 39, 254, 189, 249, 40, 216, 161, 139, 252,
    ]
}

/// Seed prefix of delegation PDAs: `"delegation"`.
pub open spec fn delegation_seed() -> Seq<u8> {
    seq![100u8, 101, 108, 101, 103, 97, 116, 105, 111, 110]
}

/// Seed prefix of plan PDAs: `"plan"`.
pub open spec fn plan_seed() -> Seq<u8> {
    seq![112u8, 108, 97, 110]
}

/// Seed prefix of subscription PDAs: `"subscription"`.
pub open spec fn subscription_seed() -> Seq<u8> {
    seq![115u8, 117, 98, 115, 99, 114, 105, 112, 116, 105, 111, 110]
}

/// Seed prefix of SubscriptionAuthority PDAs: `"subscription_authority"`.
pub open spec fn subscription_authority_seed() -> Seq<u8> {
    seq![
        115u8, 117, 98, 115, 99, 114, 105, 112, 116, 105, 111, 110, 95, 97, 117, 116, 104, 111,
        114, 105, 116, 121,
    ]
}

/// Seed prefix of transfer-context PDAs: `"TransferContext"`.
pub open spec fn transfer_context_seed() -> Seq<u8> {
    seq![84u8, 114, 97, 110, 115, 102, 101, 114, 67, 111, 110, 116, 101, 120, 116]
}

/// Seed prefix of a transfer hook's validation account: `"extra-account-metas"`.
pub open spec fn extra_account_metas_seed() -> Seq<u8> {
    seq![
        101u8, 120, 116, 114, 97, 45, 97, 99, 99, 111, 117, 110, 116, 45, 109, 101, 116, 97, 115,
    ]
}

fn bytes_vec(s: &[u8]) -> (v: Vec<u8>)
    ensures
        v@ == s@,
{
    let mut v: Vec<u8> = Vec::new();
    crate::codec::write_bytes(&mut v, s);
    assert(v@ =~= s@);
    v
}

fn address_vec(a: &Address) -> (v: Vec<u8>)
    ensures
        v@ == a@,
{
    let mut v: Vec<u8> = Vec::new();
    crate::codec::write_address(&mut v, a);
    assert(v@ =~= a@);
    v
}

fn u64_vec(x: u64) -> (v: Vec<u8>)
    ensures
        v@ == le_u64(x),
{
    let mut v: Vec<u8> = Vec::new();
    crate::codec::write_u64(&mut v, x);
    assert(v@ =~= le_u64(x));
    v
}

/// Seeds of the delegation PDA of a (authority, delegator, delegatee, nonce).
pub open spec fn delegation_seeds(
    subscription_authority: Seq<u8>,
    delegator: Seq<u8>,
    delegatee: Seq<u8>,
    nonce: u64,
) -> Seq<Seq<u8>> {
    seq![delegation_seed(), subscription_authority, delegator, delegatee, le_u64(nonce)]
}

/// Derives the delegation PDA `["delegation", authority, delegator, delegatee, nonce]`.
pub fn find_delegation_pda(
    subscription_authority: &Address,
    delegator: &Address,
    delegatee: &Address,
    nonce: u64,
) -> (r: Option<(Address, u8)>)
    ensures
        match r {
            Some((a, bump)) => spec_find_program_address(
                delegation_seeds(subscription_authority@, delegator@, delegatee@, nonce),
                program_id_bytes(),
            ) == Some((a@, bump)),
            None => spec_find_program_address(
                delegation_seeds(subscription_authority@, delegator@, delegatee@, nonce),
                program_id_bytes(),
            ) is None,
        },
{
    let seeds: Vec<Vec<u8>> = vec![
        bytes_vec(&[100u8, 101, 108, 101, 103, 97, 116, 105, 111, 110]),
        address_vec(subscription_authority),
        address_vec(delegator),
        address_vec(delegatee),
        u64_vec(nonce),
    ];
    assert(seeds_view(seeds@) =~= delegation_seeds(
        subscription_authority@,
        delegator@,
        delegatee@,
        nonce,
    ));
    try_find_program_address(&seeds, &program_id())
}

fn u8_vec(x: u8) -> (v: Vec<u8>)
    ensures
        v@ == seq![x],
{
    let mut v: Vec<u8> = Vec::new();
    v.push(x);
    v
}

/// Seeds of the plan PDA of a merchant's plan, without the bump.
pub open spec fn plan_seeds(merchant: Seq<u8>, plan_id: u64) -> Seq<Seq<u8>> {
    seq![plan_seed(), merchant, le_u64(plan_id)]
}

/// Derives the plan PDA `["plan", merchant, plan_id]`.
pub fn find_plan_pda(merchant: &Address, plan_id: u64) -> (r: Option<(Address, u8)>)
    ensures
        match r {
            Some((a, bump)) => spec_find_program_address(plan_seeds(merchant@, plan_id), program_id_bytes())
                == Some((a@, bump)),
            None => spec_find_program_address(plan_seeds(merchant@, plan_id), program_id_bytes()) is None,
        },
{
    let seeds: Vec<Vec<u8>> = vec![bytes_vec(&[112u8, 108, 97, 110]), address_vec(merchant), u64_vec(plan_id)];
    assert(seeds_view(seeds@) =~= plan_seeds(merchant@, plan_id));
    try_find_program_address(&seeds, &program_id())
}

/// Recomputes the plan PDA from its seeds and the bump the caller supplies;
/// refused with `InvalidPlanPda` when no address has them.
pub fn verify_plan_pda(merchant: &Address, plan_id: u64, bump: u8) -> (r: Result<Address, SubscriptionsError>)
    ensures
        match r {
            Ok(a) => spec_create_program_address(
                plan_seeds(merchant@, plan_id).push(seq![bump]),
                program_id_bytes(),
            ) == Some(a@),
            Err(e) => e == SubscriptionsError::InvalidPlanPda && spec_create_program_address(
                plan_seeds(merchant@, plan_id).push(seq![bump]),
                program_id_bytes(),
            ) is None,
        },
{
    let seeds: Vec<Vec<u8>> = vec![
        bytes_vec(&[112u8, 108, 97, 110]),
        address_vec(merchant),
        u64_vec(plan_id),
        u8_vec(bump),
    ];
    assert(seeds_view(seeds@) =~= plan_seeds(merchant@, plan_id).push(seq![bump]));
    match create_program_address(&seeds, &program_id()) {
        Some(a) => Ok(a),
        None => Err(SubscriptionsError::InvalidPlanPda),
    }
}

/// Seeds of the subscription PDA of a subscriber to a plan.
pub open spec fn subscription_seeds(plan: Seq<u8>, subscriber: Seq<u8>) -> Seq<Seq<u8>> {
    seq![subscription_seed(), plan, subscriber]
}

/// Derives the subscription PDA `["subscription", plan, subscriber]`.
pub fn find_subscription_pda(plan: &Address, subscriber: &Address) -> (r: Option<(Address, u8)>)
    ensures
        match r {
            Some((a, bump)) => spec_find_program_address(subscription_seeds(plan@, subscriber@), program_id_bytes())
                == Some((a@, bump)),
            None => spec_find_program_address(subscription_seeds(plan@, subscriber@), program_id_bytes()) is None,
        },
{
    let seeds: Vec<Vec<u8>> = vec![
        bytes_vec(&[115u8, 117, 98, 115, 99, 114, 105, 112, 116, 105, 111, 110]),
        address_vec(plan),
        address_vec(subscriber),
    ];
    assert(seeds_view(seeds@) =~= subscription_seeds(plan@, subscriber@));
    try_find_program_address(&seeds, &program_id())
}

/// Seeds of the SubscriptionAuthority PDA of a (user, mint).
pub open spec fn subscription_authority_seeds(user: Seq<u8>, mint: Seq<u8>) -> Seq<Seq<u8>> {
    seq![subscription_authority_seed(), user, mint]
}

/// Derives the SubscriptionAuthority PDA `["subscription_authority", user, mint]`.
pub fn find_subscription_authority_pda(user: &Address, mint: &Address) -> (r: Option<(Address, u8)>)
    ensures
        match r {
            Some((a, bump)) => spec_find_program_address(
                subscription_authority_seeds(user@, mint@),
                program_id_bytes(),
            ) == Some((a@, bump)),
            None => spec_find_program_address(subscription_authority_seeds(user@, mint@), program_id_bytes())
                is None,
        },
{
    let seeds: Vec<Vec<u8>> = vec![
        bytes_vec(
            &[
                115u8, 117, 98, 115, 99, 114, 105, 112, 116, 105, 111, 110, 95, 97, 117, 116, 104,
                111, 114, 105, 116, 121,
            ],
        ),
        address_vec(user),
        address_vec(mint),
    ];
    assert(seeds_view(seeds@) =~= subscription_authority_seeds(user@, mint@));
    try_find_program_address(&seeds, &program_id())
}

/// Seeds of the transfer-context PDA of a SubscriptionAuthority.
pub open spec fn transfer_context_seeds(subscription_authority: Seq<u8>) -> Seq<Seq<u8>> {
    seq![transfer_context_seed(), subscription_authority]
}

/// Derives the transfer-context PDA `["TransferContext", subscription_authority]`.
pub fn find_transfer_context_pda(subscription_authority: &Address) -> (r: Option<(Address, u8)>)
    ensures
        match r {
            Some((a, bump)) => spec_find_program_address(
                transfer_context_seeds(subscription_authority@),
                program_id_bytes(),
            ) == Some((a@, bump)),
            None => spec_find_program_address(transfer_context_seeds(subscription_authority@), program_id_bytes())
                is None,
        },
{
    let seeds: Vec<Vec<u8>> = vec![
        bytes_vec(&[84u8, 114, 97, 110, 115, 102, 101, 114, 67, 111, 110, 116, 101, 120, 116]),
        address_vec(subscription_authority),
    ];
    assert(seeds_view(seeds@) =~= transfer_context_seeds(subscription_authority@));
    try_find_program_address(&seeds, &program_id())
}

/// Seeds of a transfer hook's validation account for a mint.
pub open spec fn extra_account_metas_seeds(mint: Seq<u8>) -> Seq<Seq<u8>> {
    seq![extra_account_metas_seed(), mint]
}

/// Derives the hook validation account `["extra-account-metas", mint]`
/// under the hook program.
pub fn find_extra_account_metas_pda(mint: &Address, hook_program: &Address) -> (r: Option<(Address, u8)>)
    ensures
        match r {
            Some((a, bump)) => spec_find_program_address(extra_account_metas_seeds(mint@), hook_program@)
                == Some((a@, bump)),
            None => spec_find_program_address(extra_account_metas_seeds(mint@), hook_program@) is None,
        },
{
    let seeds: Vec<Vec<u8>> = vec![
        bytes_vec(
            &[101u8, 120, 116, 114, 97, 45, 97, 99, 99, 111, 117, 110, 116, 45, 109, 101, 116, 97, 115],
        ),
        address_vec(mint),
    ];
    assert(seeds_view(seeds@) =~= extra_account_metas_seeds(mint@));
    try_find_program_address(&seeds, hook_program)
}

/// Seeds of the associated token account of a wallet for a mint.
pub open spec fn associated_token_seeds(wallet: Seq<u8>, token_program: Seq<u8>, mint: Seq<u8>) -> Seq<Seq<u8>> {
    seq![wallet, token_program, mint]
}

/// Derives the associated token account `[wallet, token_program, mint]`
/// under the associated token program.
pub fn find_associated_token_address(wallet: &Address, token_program: &Address, mint: &Address) -> (r: Option<
    (Address, u8),
>)
    ensures
        match r {
            Some((a, bump)) => spec_find_program_address(
                associated_token_seeds(wallet@, token_program@, mint@),
                associated_token_program_id_bytes(),
            ) == Some((a@, bump)),
            None => spec_find_program_address(
                associated_token_seeds(wallet@, token_program@, mint@),
                associated_token_program_id_bytes(),
            ) is None,
        },
{
    let seeds: Vec<Vec<u8>> = vec![address_vec(wallet), address_vec(token_program), address_vec(mint)];
    assert(seeds_view(seeds@) =~= associated_token_seeds(wallet@, token_program@, mint@));
    try_find_program_address(&seeds, &associated_token_program_id())
}

/// Recomputes a SubscriptionAuthority PDA from its seeds and stored bump;
/// refused with `InvalidSubscriptionAuthorityPda` when no address has them.
pub fn verify_subscription_authority_pda(user: &Address, mint: &Address, bump: u8) -> (r: Result<
    Address,
    SubscriptionsError,
>)
    ensures
        match r {
            Ok(a) => spec_create_program_address(
                subscription_authority_seeds(user@, mint@).push(seq![bump]),
                program_id_bytes(),
            ) == Some(a@),
            Err(e) => e == SubscriptionsError::InvalidSubscriptionAuthorityPda && spec_create_program_address(
                subscription_authority_seeds(user@, mint@).push(seq![bump]),
                program_id_bytes(),
            ) is None,
        },
{
    let seeds: Vec<Vec<u8>> = vec![
        bytes_vec(
            &[
                115u8, 117, 98, 115, 99, 114, 105, 112, 116, 105, 111, 110, 95, 97, 117, 116, 104,
                111, 114, 105, 116, 121,
            ],
        ),
        address_vec(user),
        address_vec(mint),
        u8_vec(bump),
    ];
    assert(seeds_view(seeds@) =~= subscription_authority_seeds(user@, mint@).push(seq![bump]));
    match create_program_address(&seeds, &program_id()) {
        Some(a) => Ok(a),
        None => Err(SubscriptionsError::InvalidSubscriptionAuthorityPda),
    }
}

} // verus!


