use vstd::prelude::*;

use crate::accounts::{AccountInfo, ProgramAccount, SignerAccount, WritableAccount};
use crate::address::Address;
use crate::codec::{i64_of, lemma_i64_of, zero_padded};
use crate::errors::SubscriptionsError;
use crate::instructions::transfer::check_version;
use crate::state::common::{AccountDiscriminator, CURRENT_VERSION};
use crate::state::fixed_delegation::FixedDelegation;
use crate::state::header::{Header, DELEGATEE_OFFSET, DELEGATOR_OFFSET, PAYER_OFFSET};
use crate::state::plan::Plan;
use crate::state::recurring_delegation::RecurringDelegation;
use crate::state::subscription_delegation::SubscriptionDelegation;
use crate::validation::{is_expired, spec_is_expired};

verus! {

/// The delegator address recorded in a delegation header.
pub open spec fn recorded_delegator(data: Seq<u8>) -> Seq<u8> {
    data.subrange(3, 35)
}

/// The delegatee address recorded in a delegation header.
pub open spec fn recorded_delegatee(data: Seq<u8>) -> Seq<u8> {
    data.subrange(35, 67)
}

/// The payer address recorded in a delegation header.
pub open spec fn recorded_payer(data: Seq<u8>) -> Seq<u8> {
    data.subrange(67, 99)
}

/// Whether `authority` acts as the sponsor (`Ok(true)`) or the delegator
/// (`Ok(false)`) of the delegation whose header is in `data`; anyone else is
/// refused.
pub open spec fn sponsor_verdict(data: Seq<u8>, authority: Seq<u8>) -> Result<bool, SubscriptionsError> {
    if recorded_delegator(data) == authority {
        Ok(false)
    } else if recorded_payer(data) == authority {
        Ok(true)
    } else {
        Err(SubscriptionsError::Unauthorized)
    }
}

fn field_equals(data: &[u8], off: usize, a: &Address) -> (b: bool)
    requires
        off + 32 <= data@.len(),
    ensures
        b == (data@.subrange(off as int, off + 32) == a@),
{
    let v = crate::codec::read_address(data, off);
    v.equals(a)
}

/// Checks whether the caller is the sponsor (payer) rather than the delegator.
pub fn check_is_sponsor(data: &[u8], authority: &Address) -> (r: Result<bool, SubscriptionsError>)
    requires
        data@.len() >= Header::LEN,
    ensures
        r == sponsor_verdict(data@, authority@),
{
    if field_equals(data, DELEGATOR_OFFSET, authority) {
        return Ok(false);
    }
    if field_equals(data, PAYER_OFFSET, authority) {
        return Ok(true);
    }
    Err(SubscriptionsError::Unauthorized)
}

/// Where the rent of a closed delegation goes: back to the recorded payer,
/// which is the authority itself or else a writable `receiver` with the
/// payer's address.
pub open spec fn destination_verdict(accounts: Seq<AccountInfo>, data: Seq<u8>, receiver: Option<int>) -> Result<
    int,
    SubscriptionsError,
> {
    if recorded_payer(data) == accounts[0].address@ {
        Ok(0)
    } else {
        match receiver {
            None => Err(SubscriptionsError::NotEnoughAccountKeys),
            Some(i) => if !accounts[i].is_writable {
                Err(SubscriptionsError::AccountNotWritable)
            } else if accounts[i].address@ != recorded_payer(data) {
                Err(SubscriptionsError::Unauthorized)
            } else {
                Ok(i)
            },
        }
    }
}

/// Resolves the index of the account that receives the rent.
pub fn resolve_destination(accounts: &[AccountInfo], data: &[u8], receiver: Option<usize>) -> (r: Result<
    usize,
    SubscriptionsError,
>)
    requires
        accounts@.len() >= 1,
        data@.len() >= Header::LEN,
        receiver matches Some(i) ==> i < accounts@.len(),
    ensures
        match r {
            Ok(i) => destination_verdict(
                accounts@,
                data@,
                match receiver {
                    Some(j) => Some(j as int),
                    None => None,
                },
            ) == Ok::<int, SubscriptionsError>(i as int),
            Err(e) => destination_verdict(
                accounts@,
                data@,
                match receiver {
                    Some(j) => Some(j as int),
                    None => None,
                },
            ) == Err::<int, SubscriptionsError>(e),
        },
{
    if field_equals(data, PAYER_OFFSET, &accounts[0].address) {
        return Ok(0);
    }
    match receiver {
        None => Err(SubscriptionsError::NotEnoughAccountKeys),
        Some(i) => {
            WritableAccount::check(&accounts[i])?;
            if !field_equals(data, PAYER_OFFSET, &accounts[i].address) {
                return Err(SubscriptionsError::Unauthorized);
            }
            Ok(i)
        },
    }
}

/// The index of the trailing account at `i`, if there is one.
pub open spec fn optional_index(accounts: Seq<AccountInfo>, i: int) -> Option<int> {
    if i < accounts.len() {
        Some(i)
    } else {
        None
    }
}

/// Whether a subscription's cancellation has taken effect: its finite
/// `expires_at_ts` has been reached.
pub open spec fn reached_expiry(expiry_ts: i64, current_ts: i64) -> bool {
    expiry_ts != 0 && expiry_ts <= current_ts
}

/// The sponsor's conditions on a subscription: cancelled and expired, plan
/// account closed, plan ended, or plan recreated with other terms. A live
/// plan account that does not load as a plan refuses the revoke.
pub open spec fn sponsor_subscription_verdict(data: Seq<u8>, plan: AccountInfo, current_ts: i64) -> Result<
    (),
    SubscriptionsError,
> {
    let expires_at_ts = i64_of(data.subrange(147, 155));
    let sub_expired = expires_at_ts != 0 && expires_at_ts <= current_ts;
    let plan_closed = !plan.spec_owned_by_program();
    if !plan_closed && plan.data@.len() != Plan::LEN {
        Err(SubscriptionsError::InvalidAccountData)
    } else if !plan_closed && plan.data@[0] != AccountDiscriminator::Plan.byte() {
        Err(SubscriptionsError::InvalidAccountDiscriminator)
    } else {
        let plan_ended_or_recreated = !plan_closed && (data.subrange(107, 131)
            != plan.data@.subrange(75, 99) || (i64_of(plan.data@.subrange(99, 107)) != 0
            && current_ts > i64_of(plan.data@.subrange(99, 107))));
        if sub_expired || plan_closed || plan_ended_or_recreated {
            Ok(())
        } else {
            Err(SubscriptionsError::Unauthorized)
        }
    }
}

/// The verdict of revoking a subscription whose account data is `data`.
pub open spec fn subscription_revoke_verdict(accounts: Seq<AccountInfo>, data: Seq<u8>, current_ts: i64) -> Result<
    int,
    SubscriptionsError,
> {
    if data[1] != CURRENT_VERSION {
        Err(SubscriptionsError::MigrationRequired)
    } else if data.len() < SubscriptionDelegation::V1_LEN {
        Err(SubscriptionsError::InvalidAccountData)
    } else if accounts.len() < 3 {
        Err(SubscriptionsError::NotEnoughAccountKeys)
    } else if recorded_delegatee(data) != accounts[2].address@ {
        Err(SubscriptionsError::SubscriptionPlanMismatch)
    } else {
        match sponsor_verdict(data, accounts[0].address@) {
            Err(e) => Err(e),
            Ok(true) => match sponsor_subscription_verdict(data, accounts[2], current_ts) {
                Err(e) => Err(e),
                Ok(()) => destination_verdict(accounts, data, optional_index(accounts, 3)),
            },
            Ok(false) => {
                let expires_at_ts = i64_of(data.subrange(147, 155));
                if expires_at_ts == 0 || expires_at_ts > current_ts {
                    Err(SubscriptionsError::SubscriptionNotCancelled)
                } else {
                    destination_verdict(accounts, data, optional_index(accounts, 3))
                }
            },
        }
    }
}

/// Offset of `expiry_ts` in a fixed or recurring delegation of kind `kind`.
pub open spec fn expiry_offset(kind: u8) -> int {
    if kind == AccountDiscriminator::FixedDelegation.byte() {
        179
    } else {
        187
    }
}

/// The verdict of revoking a fixed or recurring delegation.
pub open spec fn fixed_or_recurring_revoke_verdict(
    accounts: Seq<AccountInfo>,
    data: Seq<u8>,
    current_ts: i64,
) -> Result<int, SubscriptionsError> {
    match sponsor_verdict(data, accounts[0].address@) {
        Err(e) => Err(e),
        Ok(is_sponsor) => {
            let min_len = if data[0] == AccountDiscriminator::FixedDelegation.byte() {
                FixedDelegation::V1_LEN as int
            } else {
                RecurringDelegation::V1_LEN as int
            };
            if is_sponsor && data.len() < min_len {
                Err(SubscriptionsError::InvalidAccountData)
            } else if is_sponsor && !spec_is_expired(
                i64_of(data.subrange(expiry_offset(data[0]), expiry_offset(data[0]) + 8)),
                current_ts,
            ) {
                Err(SubscriptionsError::Unauthorized)
            } else {
                destination_verdict(accounts, data, optional_index(accounts, 2))
            }
        },
    }
}

/// The accounts of a `RevokeDelegation` instruction, by index; the
/// trailing accounts from `rem_start` on depend on the delegation's kind.
pub struct RevokeDelegationAccounts {
    /// The delegator or sponsor revoking (signer, writable).
    pub authority: usize,
    /// The delegation to close (writable, program-owned).
    pub delegation_account: usize,
    /// Index of the first trailing account.
    pub rem_start: usize,
}

impl RevokeDelegationAccounts {
    /// The verdict of [`Self::try_from`].
    pub open spec fn verdict(accounts: Seq<AccountInfo>) -> Result<Self, SubscriptionsError> {
        if accounts.len() < 2 {
            Err(SubscriptionsError::NotEnoughAccountKeys)
        } else if !accounts[0].is_signer {
            Err(SubscriptionsError::NotSigner)
        } else if !accounts[0].is_writable {
            Err(SubscriptionsError::AccountNotWritable)
        } else if !accounts[1].is_writable {
            Err(SubscriptionsError::AccountNotWritable)
        } else if !accounts[1].spec_owned_by_program() {
            Err(SubscriptionsError::InvalidAccountOwner)
        } else {
            Ok(RevokeDelegationAccounts { authority: 0, delegation_account: 1, rem_start: 2 })
        }
    }

    /// Picks and checks the authority and the delegation account.
    pub fn try_from(accounts: &[AccountInfo]) -> (r: Result<Self, SubscriptionsError>)
        ensures
            r == Self::verdict(accounts@),
    {
        if accounts.len() < 2 {
            return Err(SubscriptionsError::NotEnoughAccountKeys);
        }
        SignerAccount::check(&accounts[0])?;
        WritableAccount::check(&accounts[0])?;
        WritableAccount::check(&accounts[1])?;
        ProgramAccount::check(&accounts[1])?;
        Ok(RevokeDelegationAccounts { authority: 0, delegation_account: 1, rem_start: 2 })
    }
}

/// The verdict of a `RevokeDelegation` instruction over `accounts` at
/// `current_ts`: the index of the account that receives the rent of the
/// closed delegation (`accounts[1]`), or why the revoke is refused.
pub open spec fn revoke_verdict(accounts: Seq<AccountInfo>, current_ts: i64) -> Result<
    int,
    SubscriptionsError,
> {
    if accounts.len() < 2 {
        Err(SubscriptionsError::NotEnoughAccountKeys)
    } else if !accounts[0].is_signer {
        Err(SubscriptionsError::NotSigner)
    } else if !accounts[0].is_writable {
        Err(SubscriptionsError::AccountNotWritable)
    } else if !accounts[1].is_writable {
        Err(SubscriptionsError::AccountNotWritable)
    } else if !accounts[1].spec_owned_by_program() {
        Err(SubscriptionsError::InvalidAccountOwner)
    } else {
        let data = accounts[1].data@;
        if data.len() < Header::LEN {
            Err(SubscriptionsError::InvalidHeaderData)
        } else if data[0] > 6 {
            Err(SubscriptionsError::InvalidAccountDiscriminator)
        } else if data[0] == AccountDiscriminator::SubscriptionDelegation.byte() {
            subscription_revoke_verdict(accounts, data, current_ts)
        } else if data[0] == AccountDiscriminator::FixedDelegation.byte() || data[0]
            == AccountDiscriminator::RecurringDelegation.byte() {
            fixed_or_recurring_revoke_verdict(accounts, data, current_ts)
        } else {
            Err(SubscriptionsError::InvalidAccountDiscriminator)
        }
    }
}

/// Decides a `RevokeDelegation` instruction: `accounts` are the authority
/// (delegator or sponsor), the delegation account, then for a subscription
/// the plan account, and an optional rent receiver. Returns the index of the
/// account that receives the rent when the delegation account is closed.
pub fn process(accounts: &[AccountInfo], current_ts: i64) -> (r: Result<usize, SubscriptionsError>)
    ensures
        match r {
            Ok(i) => revoke_verdict(accounts@, current_ts) == Ok::<int, SubscriptionsError>(i as int),
            Err(e) => revoke_verdict(accounts@, current_ts) == Err::<int, SubscriptionsError>(e),
        },
{
    let picked = RevokeDelegationAccounts::try_from(accounts)?;
    let authority = &accounts[picked.authority];
    let delegation_account = &accounts[picked.delegation_account];

    let data = delegation_account.data.as_slice();
    if data.len() < Header::LEN {
        return Err(SubscriptionsError::InvalidHeaderData);
    }
    let kind = AccountDiscriminator::try_from_u8(data[0])?;
    match kind {
        AccountDiscriminator::SubscriptionDelegation => {
            check_version(data[1])?;
            let subscription = SubscriptionDelegation::load_for_revoke(data)?;
            proof {
                subscription.lemma_encode_len();
                assert(zero_padded(data@, SubscriptionDelegation::LEN as int) =~= data@.subrange(
                    0,
                    SubscriptionDelegation::LEN as int,
                ));
                subscription.header.lemma_encode_len();
                subscription.terms.lemma_encode_len();
                crate::codec::lemma_le_len(subscription.amount_pulled_in_period, subscription.expires_at_ts);
                crate::codec::lemma_le_len(0, subscription.current_period_start_ts);
                let e = subscription.encode();
                assert(e == data@.subrange(0, 155));
                assert(e.subrange(147, 155) =~= crate::codec::le_i64(subscription.expires_at_ts));
                assert(data@.subrange(147, 155) =~= e.subrange(147, 155));
                lemma_i64_of(subscription.expires_at_ts, data@.subrange(147, 155));
                assert(e.subrange(0, 107) =~= subscription.header.encode());
                assert(e.subrange(35, 67) =~= subscription.header.delegatee@);
                assert(data@.subrange(35, 67) =~= e.subrange(35, 67));
                assert(e.subrange(107, 131) =~= subscription.terms.encode());
                assert(data@.subrange(107, 131) =~= e.subrange(107, 131));
            }
            if accounts.len() < 3 {
                return Err(SubscriptionsError::NotEnoughAccountKeys);
            }
            let plan_account = &accounts[2];
            let receiver: Option<usize> = if accounts.len() > 3 {
                Some(3)
            } else {
                None
            };
            if !subscription.header.delegatee.equals(&plan_account.address) {
                return Err(SubscriptionsError::SubscriptionPlanMismatch);
            }
            let is_sponsor = check_is_sponsor(data, &authority.address)?;
            if is_sponsor {
                let sub_expired = subscription.expires_at_ts != 0 && subscription.expires_at_ts
                    <= current_ts;
                let plan_closed = !plan_account.owned_by_program();
                let plan_ended_or_recreated = if plan_closed {
                    false
                } else {
                    let plan = Plan::load(plan_account.data.as_slice())?;
                    proof {
                        plan.lemma_encode_len();
                        plan.data.lemma_encode_len();
                        plan.data.terms.lemma_encode_len();
                        crate::codec::lemma_le_len(plan.data.plan_id, plan.data.end_ts);
                        assert(plan.data.encode() =~= plan_account.data@.subrange(35, 491));
                        assert(plan.data.terms.encode() =~= plan_account.data@.subrange(75, 99));
                        assert(crate::codec::le_i64(plan.data.end_ts) =~= plan_account.data@.subrange(
                            99,
                            107,
                        ));
                        lemma_i64_of(plan.data.end_ts, plan_account.data@.subrange(99, 107));
                        if subscription.terms == plan.data.terms {
                            assert(data@.subrange(107, 131) == plan_account.data@.subrange(75, 99));
                        } else {
                            if data@.subrange(107, 131) == plan_account.data@.subrange(75, 99) {
                                crate::state::plan::PlanTerms::lemma_encode_injective(
                                    subscription.terms,
                                    plan.data.terms,
                                );
                            }
                        }
                    }
                    let terms_mismatch = subscription.check_plan_terms(&plan.data.terms).is_err();
                    let plan_ended = plan.data.end_ts != 0 && current_ts > plan.data.end_ts;
                    terms_mismatch || plan_ended
                };
                if !(sub_expired || plan_closed || plan_ended_or_recreated) {
                    return Err(SubscriptionsError::Unauthorized);
                }
            } else {
                if subscription.expires_at_ts == 0 || subscription.expires_at_ts > current_ts {
                    return Err(SubscriptionsError::SubscriptionNotCancelled);
                }
            }
            resolve_destination(accounts, data, receiver)
        },
        AccountDiscriminator::FixedDelegation | AccountDiscriminator::RecurringDelegation => {
            let is_sponsor = check_is_sponsor(data, &authority.address)?;
            if is_sponsor {
                let expiry_ts = match kind {
                    AccountDiscriminator::FixedDelegation => {
                        let d = FixedDelegation::load_for_revoke(data)?;
                        proof {
                            d.lemma_encode_len();
                            d.header.lemma_encode_len();
                            crate::codec::lemma_le_len(d.amount, d.expiry_ts);
                            assert(zero_padded(data@, FixedDelegation::LEN as int) =~= data@.subrange(
                                0,
                                FixedDelegation::LEN as int,
                            ));
                            let e = d.encode();
                            assert(e == data@.subrange(0, FixedDelegation::LEN as int));
                            assert(e.subrange(179, 187) =~= crate::codec::le_i64(d.expiry_ts));
                            assert(data@.subrange(179, 187) =~= e.subrange(179, 187));
                            lemma_i64_of(d.expiry_ts, data@.subrange(179, 187));
                        }
                        d.expiry_ts
                    },
                    _ => {
                        let d = RecurringDelegation::load_for_revoke(data)?;
                        proof {
                            d.lemma_encode_len();
                            d.header.lemma_encode_len();
                            crate::codec::lemma_le_len(d.period_length_s, d.expiry_ts);
                            crate::codec::lemma_le_len(d.amount_per_period, d.current_period_start_ts);
                            crate::codec::lemma_le_len(d.amount_pulled_in_period, 0);
                            assert(zero_padded(data@, RecurringDelegation::LEN as int)
                                =~= data@.subrange(0, RecurringDelegation::LEN as int));
                            let e = d.encode();
                            assert(e == data@.subrange(0, RecurringDelegation::LEN as int));
                            assert(e.subrange(187, 195) =~= crate::codec::le_i64(d.expiry_ts));
                            assert(data@.subrange(187, 195) =~= e.subrange(187, 195));
                            lemma_i64_of(d.expiry_ts, data@.subrange(187, 195));
                        }
                        d.expiry_ts
                    },
                };
                if !is_expired(expiry_ts, current_ts) {
                    return Err(SubscriptionsError::Unauthorized);
                }
            }
            let receiver: Option<usize> = if accounts.len() > 2 {
                Some(2)
            } else {
                None
            };
            resolve_destination(accounts, data, receiver)
        },
        _ => Err(SubscriptionsError::InvalidAccountDiscriminator),
    }
}

/// Who may revoke a fixed or recurring delegation that passes the account
/// checks: its delegator at any time; its recorded payer, when that is
/// someone else, only once the finite expiry is strictly past; nobody else.
/// An authorized revoke then closes the delegation to the account the rent
/// rules pick (the recorded payer).
pub proof fn law_revoke_authorization(accounts: Seq<AccountInfo>, current_ts: i64)
    requires
        RevokeDelegationAccounts::verdict(accounts) is Ok,
        accounts[1].data@.len() >= Header::LEN,
        accounts[1].data@[0] == AccountDiscriminator::FixedDelegation.byte() || accounts[1].data@[0]
            == AccountDiscriminator::RecurringDelegation.byte(),
        accounts[1].data@[0] == AccountDiscriminator::FixedDelegation.byte() ==> accounts[1].data@.len()
            >= FixedDelegation::V1_LEN,
        accounts[1].data@[0] == AccountDiscriminator::RecurringDelegation.byte() ==> accounts[1].data@.len()
            >= RecurringDelegation::V1_LEN,
    ensures
        ({
            let data = accounts[1].data@;
            let a = accounts[0].address@;
            let expiry = i64_of(data.subrange(expiry_offset(data[0]), expiry_offset(data[0]) + 8));
            let rent = destination_verdict(accounts, data, optional_index(accounts, 2));
            &&& a == recorded_delegator(data) ==> revoke_verdict(accounts, current_ts) == rent
            &&& (a != recorded_delegator(data) && a == recorded_payer(data)) ==> revoke_verdict(accounts, current_ts)
                == if spec_is_expired(expiry, current_ts) {
                rent
            } else {
                Err(SubscriptionsError::Unauthorized)
            }
            &&& (a != recorded_delegator(data) && a != recorded_payer(data)) ==> revoke_verdict(accounts, current_ts)
                == Err::<int, SubscriptionsError>(SubscriptionsError::Unauthorized)
        }),
{
}

/// A sponsor (the recorded payer, not the subscriber) may close a
/// subscription only when the plan account given is the subscription's
/// plan and the subscription can no longer bill: its cancellation took
/// effect, the plan account was closed, the plan now carries other terms,
/// or the plan's finite end has passed. Otherwise the sponsor is refused.
pub proof fn law_sponsor_subscription_revoke(accounts: Seq<AccountInfo>, current_ts: i64)
    requires
        RevokeDelegationAccounts::verdict(accounts) is Ok,
        accounts.len() >= 3,
        accounts[1].data@.len() >= SubscriptionDelegation::V1_LEN,
        accounts[1].data@[0] == AccountDiscriminator::SubscriptionDelegation.byte(),
        accounts[1].data@[1] == CURRENT_VERSION,
        accounts[0].address@ != recorded_delegator(accounts[1].data@),
        accounts[0].address@ == recorded_payer(accounts[1].data@),
    ensures
        ({
            let data = accounts[1].data@;
            let plan = accounts[2];
            let closed = !plan.spec_owned_by_program();
            let can_no_longer_bill = reached_expiry(i64_of(data.subrange(147, 155)), current_ts) || closed || (
            data.subrange(107, 131) != plan.data@.subrange(75, 99)) || (i64_of(plan.data@.subrange(99, 107))
                != 0 && current_ts > i64_of(plan.data@.subrange(99, 107)));
            &&& plan.address@ != recorded_delegatee(data) ==> revoke_verdict(accounts, current_ts) == Err::<
                int,
                SubscriptionsError,
            >(SubscriptionsError::SubscriptionPlanMismatch)
            &&& (plan.address@ == recorded_delegatee(data) && (closed || (plan.data@.len() == Plan::LEN
                && plan.data@[0] == AccountDiscriminator::Plan.byte()))) ==> revoke_verdict(accounts, current_ts)
                == if can_no_longer_bill {
                destination_verdict(accounts, data, optional_index(accounts, 3))
            } else {
                Err(SubscriptionsError::Unauthorized)
            }
        }),
{
}

/// The delegator role wins: an authority that is the recorded delegator acts
/// as the delegator even when it is also the recorded payer; one that is
/// only the recorded payer acts as the sponsor; anyone else is refused.
pub proof fn law_delegator_role_first(data: Seq<u8>, authority: Seq<u8>)
    requires
        data.len() >= Header::LEN,
    ensures
        authority == recorded_delegator(data) ==> sponsor_verdict(data, authority) == Ok::<
            bool,
            SubscriptionsError,
        >(false),
        authority != recorded_delegator(data) && authority == recorded_payer(data) ==> sponsor_verdict(
            data,
            authority,
        ) == Ok::<bool, SubscriptionsError>(true),
        authority != recorded_delegator(data) && authority != recorded_payer(data) ==> sponsor_verdict(
            data,
            authority,
        ) == Err::<bool, SubscriptionsError>(SubscriptionsError::Unauthorized),
{
}

/// Rent always returns to the original payer: the account picked is one
/// whose address is the recorded payer, the authority itself when it is the
/// payer; otherwise a receiver must be given (`NotEnoughAccountKeys`), be
/// writable (`AccountNotWritable`) and carry the payer's address
/// (`Unauthorized`), checked in that order.
pub proof fn law_rent_returns_to_payer(accounts: Seq<AccountInfo>, data: Seq<u8>, receiver: Option<int>)
    requires
        accounts.len() >= 1,
        data.len() >= Header::LEN,
        receiver matches Some(i) ==> 0 <= i < accounts.len(),
    ensures
        destination_verdict(accounts, data, receiver) is Ok ==> 0 <= destination_verdict(accounts, data, receiver)->Ok_0 < accounts.len()
            && accounts[destination_verdict(accounts, data, receiver)->Ok_0].address@ == recorded_payer(data),
        recorded_payer(data) == accounts[0].address@ ==> destination_verdict(accounts, data, receiver) == Ok::<
            int,
            SubscriptionsError,
        >(0),
        recorded_payer(data) != accounts[0].address@ && receiver is None ==> destination_verdict(
            accounts,
            data,
            receiver,
        ) == Err::<int, SubscriptionsError>(SubscriptionsError::NotEnoughAccountKeys),
        recorded_payer(data) != accounts[0].address@ && receiver is Some && !accounts[receiver->0].is_writable
            ==> destination_verdict(accounts, data, receiver) == Err::<int, SubscriptionsError>(
            SubscriptionsError::AccountNotWritable,
        ),
        recorded_payer(data) != accounts[0].address@ && receiver is Some && accounts[receiver->0].is_writable
            && accounts[receiver->0].address@ != recorded_payer(data) ==> destination_verdict(accounts, data, receiver)
            == Err::<int, SubscriptionsError>(SubscriptionsError::Unauthorized),
{
}

/// What every accepted revoke guarantees: the signer is the delegator or the
/// recorded payer; the rent goes to an account with the payer's address; a
/// payer who is not the delegator closes a fixed or recurring delegation only
/// once its finite expiry is strictly past; and a subscriber closes a subscription
/// only after cancelling and waiting out the paid period.
pub proof fn law_revoke_rules(accounts: Seq<AccountInfo>, current_ts: i64)
    requires
        revoke_verdict(accounts, current_ts) is Ok,
    ensures
        ({
            let data = accounts[1].data@;
            let i = revoke_verdict(accounts, current_ts)->Ok_0;
            &&& accounts[0].is_signer
            &&& accounts[0].address@ == recorded_delegator(data) || accounts[0].address@
                == recorded_payer(data)
            &&& 0 <= i < accounts.len()
            &&& accounts[i].address@ == recorded_payer(data)
            &&& (data[0] == AccountDiscriminator::FixedDelegation.byte() && accounts[0].address@
                != recorded_delegator(data)) ==> spec_is_expired(i64_of(data.subrange(179, 187)), current_ts)
            &&& (data[0] == AccountDiscriminator::RecurringDelegation.byte() && accounts[0].address@
                != recorded_delegator(data)) ==> spec_is_expired(i64_of(data.subrange(187, 195)), current_ts)
            &&& (data[0] == AccountDiscriminator::SubscriptionDelegation.byte() && accounts[0].address@
                == recorded_delegator(data)) ==> reached_expiry(i64_of(data.subrange(147, 155)), current_ts)
        }),
{
}

} // verus!
