use vstd::prelude::*;
use crate::accounts::{AccountInfo, ProgramAccount, SignerAccount, SubscriptionAuthorityAccount, WritableAccount};

use crate::address::Address;
use crate::codec::{le_i64, lemma_le_i64_injective, lemma_le_len, read_i64, write_i64};
use crate::errors::SubscriptionsError;
use crate::instructions::cancel_subscription::{cancel_verdict, load_subscription_account, subscription_account_verdict};
use crate::instructions::transfer::{check_version, version_verdict};
use crate::state::plan::Plan;
use crate::state::subscription_authority::SubscriptionAuthority;
use crate::state::subscription_delegation::SubscriptionDelegation;

verus! {

/// Instruction data for resuming a cancelled subscription.
#[derive(Clone, Copy, Debug, PartialEq, Eq)]
pub struct ResumeData {
    /// The `expires_at_ts` the subscriber observed when signing.
    pub expected_expires_at_ts: i64,
}

impl ResumeData {
    /// Serialized size in bytes.
    pub const LEN: usize = 8;

    /// The record's bytes.
    pub open spec fn encode(&self) -> Seq<u8> {
        le_i64(self.expected_expires_at_ts)
    }

    /// The encoding is `LEN` bytes long.
    pub proof fn lemma_encode_len(&self)
        ensures
            self.encode().len() == Self::LEN,
    {
        lemma_le_len(0, self.expected_expires_at_ts);
    }

    /// Two records with the same bytes are equal.
    pub proof fn lemma_encode_injective(a: Self, b: Self)
        requires
            a.encode() == b.encode(),
        ensures
            a == b,
    {
        lemma_le_len(0, a.expected_expires_at_ts);
        lemma_le_len(0, b.expected_expires_at_ts);
        let s = a.encode();
        assert(le_i64(a.expected_expires_at_ts) =~= s.subrange(0, 8));
        assert(le_i64(b.expected_expires_at_ts) =~= s.subrange(0, 8));
        lemma_le_i64_injective(a.expected_expires_at_ts, b.expected_expires_at_ts);
    }

    /// Decodes the first `LEN` bytes of `data`.
    pub fn parse(data: &[u8]) -> (d: Self)
        requires
            data@.len() >= Self::LEN,
        ensures
            d.encode() == data@.subrange(0, Self::LEN as int),
    {
        let d = ResumeData {
            expected_expires_at_ts: read_i64(data, 0),
        };
        assert(d.encode() =~= data@.subrange(0, Self::LEN as int));
        d
    }

    /// Deserializes instruction data of exactly `LEN` bytes.
    pub fn load(bytes: &[u8]) -> (r: Result<Self, SubscriptionsError>)
        ensures
            match r {
                Ok(d) => d.encode() == bytes@,
                Err(e) => e == SubscriptionsError::InvalidInstructionData,
            },
            r is Ok <==> bytes@.len() == Self::LEN,
    {
        if bytes.len() != Self::LEN {
            return Err(SubscriptionsError::InvalidInstructionData);
        }
        let d = Self::parse(bytes);
        assert(bytes@.subrange(0, Self::LEN as int) =~= bytes@);
        Ok(d)
    }

    /// Serializes the record.
    pub fn to_bytes(&self) -> (v: Vec<u8>)
        ensures
            v@ == self.encode(),
    {
        let mut v: Vec<u8> = Vec::new();
        write_i64(&mut v, self.expected_expires_at_ts);
        assert(v@ =~= self.encode());
        v
    }
}

/// The verdict of `subscriber` resuming `sub`, bound to the plan account at
/// `plan_address` whose data is `plan_data` (`None` once the account is
/// closed), under the subscription authority whose data is `authority_data`.
pub open spec fn resume_verdict(
    sub: SubscriptionDelegation,
    subscriber: Seq<u8>,
    plan_address: Seq<u8>,
    plan_data: Option<Seq<u8>>,
    authority_data: Seq<u8>,
    expected_expires_at_ts: i64,
    current_ts: i64,
) -> Result<(), SubscriptionsError> {
    if version_verdict(sub.header.version) is Err {
        Err(SubscriptionsError::MigrationRequired)
    } else if sub.header.delegator@ != subscriber {
        Err(SubscriptionsError::Unauthorized)
    } else if sub.header.delegatee@ != plan_address {
        Err(SubscriptionsError::SubscriptionPlanMismatch)
    } else if sub.expires_at_ts == 0 {
        Err(SubscriptionsError::SubscriptionNotCancelled)
    } else if sub.expires_at_ts != expected_expires_at_ts {
        Err(SubscriptionsError::SubscriptionCancelled)
    } else {
        match plan_data {
            None => Err(SubscriptionsError::PlanClosed),
            Some(bytes) => match Plan::load_verdict(bytes) {
                Err(e) => Err(e),
                Ok(plan) => if plan.data.end_ts != 0 && current_ts > plan.data.end_ts {
                    Err(SubscriptionsError::PlanExpired)
                } else if sub.terms != plan.data.terms {
                    Err(SubscriptionsError::PlanTermsMismatch)
                } else {
                    match SubscriptionAuthority::load_verdict(authority_data) {
                        Err(e) => Err(e),
                        Ok(authority) => if authority.user@ != subscriber {
                            Err(SubscriptionsError::Unauthorized)
                        } else if authority.token_mint@ != plan.data.mint@ {
                            Err(SubscriptionsError::MintMismatch)
                        } else if authority.init_id != sub.header.init_id {
                            Err(SubscriptionsError::StaleSubscriptionAuthority)
                        } else if sub.expires_at_ts <= current_ts {
                            Err(SubscriptionsError::SubscriptionCancelled)
                        } else {
                            Ok(())
                        },
                    }
                },
            },
        }
    }
}

/// The subscription after a resume: its expiry cleared, the period
/// accounting untouched.
pub open spec fn resumed(sub: SubscriptionDelegation) -> SubscriptionDelegation {
    SubscriptionDelegation { expires_at_ts: 0, ..sub }
}

/// Resumes a cancelled subscription by clearing its `expires_at_ts`
/// (see [`resume_verdict`] for when it is refused); the subscription is
/// unchanged when the resume is refused.
pub fn resume(
    sub: &mut SubscriptionDelegation,
    subscriber: &Address,
    plan_address: &Address,
    plan_data: Option<&[u8]>,
    authority_data: &[u8],
    data: &ResumeData,
    current_ts: i64,
) -> (r: Result<(), SubscriptionsError>)
    ensures
        r == resume_verdict(
            *old(sub),
            subscriber@,
            plan_address@,
            match plan_data {
                Some(b) => Some(b@),
                None => None,
            },
            authority_data@,
            data.expected_expires_at_ts,
            current_ts,
        ),
        r is Ok ==> *final(sub) == resumed(*old(sub)),
        r is Err ==> *final(sub) == *old(sub),
{
    check_version(sub.header.version)?;
    if !sub.header.delegator.equals(subscriber) {
        return Err(SubscriptionsError::Unauthorized);
    }
    if !sub.header.delegatee.equals(plan_address) {
        return Err(SubscriptionsError::SubscriptionPlanMismatch);
    }
    if sub.expires_at_ts == 0 {
        return Err(SubscriptionsError::SubscriptionNotCancelled);
    }
    if sub.expires_at_ts != data.expected_expires_at_ts {
        return Err(SubscriptionsError::SubscriptionCancelled);
    }
    let plan_bytes = match plan_data {
        None => {
            return Err(SubscriptionsError::PlanClosed);
        },
        Some(b) => b,
    };
    let loaded = Plan::load(plan_bytes);
    proof {
        Plan::lemma_load_verdict(plan_bytes@, loaded);
    }
    let plan = loaded?;
    if plan.data.end_ts != 0 && current_ts > plan.data.end_ts {
        return Err(SubscriptionsError::PlanExpired);
    }
    sub.check_plan_terms(&plan.data.terms)?;
    let loaded_authority = SubscriptionAuthority::load(authority_data);
    proof {
        SubscriptionAuthority::lemma_load_verdict(authority_data@, loaded_authority);
    }
    let authority = loaded_authority?;
    authority.check_owner(subscriber)?;
    if !authority.token_mint.equals(&plan.data.mint) {
        return Err(SubscriptionsError::MintMismatch);
    }
    if authority.init_id != sub.header.init_id {
        return Err(SubscriptionsError::StaleSubscriptionAuthority);
    }
    if sub.expires_at_ts <= current_ts {
        return Err(SubscriptionsError::SubscriptionCancelled);
    }
    sub.expires_at_ts = 0;
    Ok(())
}

/// A resume undoes a cancellation: cancelling a subscription and then
/// resuming it with the expiry the cancellation set gives back the
/// subscription exactly as it was before, period accounting included.
pub proof fn law_resume_undoes_cancel(
    sub: SubscriptionDelegation,
    subscriber: Seq<u8>,
    plan_address: Seq<u8>,
    plan: Option<Plan>,
    cancel_ts: i64,
    plan_data: Option<Seq<u8>>,
    authority_data: Seq<u8>,
    resume_ts: i64,
)
    requires
        cancel_verdict(sub, subscriber, plan_address, plan, cancel_ts) is Ok,
        resume_verdict(
            SubscriptionDelegation {
                expires_at_ts: cancel_verdict(sub, subscriber, plan_address, plan, cancel_ts)->Ok_0,
                ..sub
            },
            subscriber,
            plan_address,
            plan_data,
            authority_data,
            cancel_verdict(sub, subscriber, plan_address, plan, cancel_ts)->Ok_0,
            resume_ts,
        ) is Ok,
    ensures
        resumed(
            SubscriptionDelegation {
                expires_at_ts: cancel_verdict(sub, subscriber, plan_address, plan, cancel_ts)->Ok_0,
                ..sub
            },
        ) == sub,
{
}

/// When the subscriber, plan and SubscriptionAuthority all line up (the
/// subscription is the subscriber's, on that plan; the plan loads, has not
/// ended and keeps the subscription's terms; the authority is the
/// subscriber's, for the plan's mint, of the subscription's generation), a
/// resume turns on the expiry alone: it is accepted exactly when the
/// subscription is cancelled, with the expiry the caller expects, and that
/// expiry is still ahead; an uncancelled one is refused as not cancelled,
/// any other as cancelled.
pub proof fn law_resume_turns_on_expiry(
    sub: SubscriptionDelegation,
    subscriber: Seq<u8>,
    plan_address: Seq<u8>,
    plan_bytes: Seq<u8>,
    authority_data: Seq<u8>,
    expected_expires_at_ts: i64,
    current_ts: i64,
)
    requires
        version_verdict(sub.header.version) is Ok,
        sub.header.delegator@ == subscriber,
        sub.header.delegatee@ == plan_address,
        Plan::load_verdict(plan_bytes) is Ok,
        Plan::load_verdict(plan_bytes)->Ok_0.data.end_ts == 0 || current_ts <= Plan::load_verdict(
            plan_bytes,
        )->Ok_0.data.end_ts,
        sub.terms == Plan::load_verdict(plan_bytes)->Ok_0.data.terms,
        SubscriptionAuthority::load_verdict(authority_data) is Ok,
        SubscriptionAuthority::load_verdict(authority_data)->Ok_0.user@ == subscriber,
        SubscriptionAuthority::load_verdict(authority_data)->Ok_0.token_mint@ == Plan::load_verdict(
            plan_bytes,
        )->Ok_0.data.mint@,
        SubscriptionAuthority::load_verdict(authority_data)->Ok_0.init_id == sub.header.init_id,
    ensures
        ({
            let r = resume_verdict(
                sub,
                subscriber,
                plan_address,
                Some(plan_bytes),
                authority_data,
                expected_expires_at_ts,
                current_ts,
            );
            &&& r is Ok <==> (sub.expires_at_ts != 0 && sub.expires_at_ts == expected_expires_at_ts
                && sub.expires_at_ts > current_ts)
            &&& sub.expires_at_ts == 0 ==> r == Err::<(), SubscriptionsError>(
                SubscriptionsError::SubscriptionNotCancelled,
            )
            &&& (sub.expires_at_ts != 0 && (sub.expires_at_ts != expected_expires_at_ts || sub.expires_at_ts
                <= current_ts)) ==> r == Err::<(), SubscriptionsError>(SubscriptionsError::SubscriptionCancelled)
        }),
{
}

/// A resume is refused once the cancellation has taken effect: at or after
/// the expiry that the cancellation set.
pub proof fn law_no_resume_after_expiry(
    sub: SubscriptionDelegation,
    subscriber: Seq<u8>,
    plan_address: Seq<u8>,
    plan_data: Option<Seq<u8>>,
    authority_data: Seq<u8>,
    expected_expires_at_ts: i64,
    current_ts: i64,
)
    requires
        sub.expires_at_ts != 0,
        sub.expires_at_ts <= current_ts,
    ensures
        resume_verdict(
            sub,
            subscriber,
            plan_address,
            plan_data,
            authority_data,
            expected_expires_at_ts,
            current_ts,
        ) is Err,
{
}

/// The accounts of a `ResumeSubscription` instruction, by index.
pub struct ResumeSubscriptionAccounts {
    /// The subscriber (signer).
    pub subscriber: usize,
    /// The plan the subscription is bound to.
    pub plan_pda: usize,
    /// The subscription account (program-owned, writable).
    pub subscription_pda: usize,
    /// The subscriber's SubscriptionAuthority.
    pub subscription_authority: usize,
    /// The event authority.
    pub event_authority: usize,
    /// This program.
    pub self_program: usize,
}

impl ResumeSubscriptionAccounts {
    /// The verdict of [`Self::try_from`].
    pub open spec fn verdict(accounts: Seq<AccountInfo>) -> Result<Self, SubscriptionsError> {
        if accounts.len() != 6 {
            Err(SubscriptionsError::NotEnoughAccountKeys)
        } else if !accounts[0].is_signer {
            Err(SubscriptionsError::NotSigner)
        } else if !accounts[2].spec_owned_by_program() {
            Err(SubscriptionsError::InvalidAccountOwner)
        } else if !accounts[2].is_writable {
            Err(SubscriptionsError::AccountNotWritable)
        } else if SubscriptionAuthorityAccount::verdict(accounts[3]) is Err {
            Err(SubscriptionAuthorityAccount::verdict(accounts[3])->Err_0)
        } else {
            Ok(
                ResumeSubscriptionAccounts {
                    subscriber: 0,
                    plan_pda: 1,
                    subscription_pda: 2,
                    subscription_authority: 3,
                    event_authority: 4,
                    self_program: 5,
                },
            )
        }
    }

    /// Picks and checks exactly six accounts: subscriber, plan,
    /// subscription, SubscriptionAuthority, event authority, this program.
    pub fn try_from(accounts: &[AccountInfo]) -> (r: Result<Self, SubscriptionsError>)
        ensures
            r == Self::verdict(accounts@),
    {
        if accounts.len() != 6 {
            return Err(SubscriptionsError::NotEnoughAccountKeys);
        }
        SignerAccount::check(&accounts[0])?;
        ProgramAccount::check(&accounts[2])?;
        WritableAccount::check(&accounts[2])?;
        SubscriptionAuthorityAccount::check(&accounts[3])?;
        Ok(
            ResumeSubscriptionAccounts {
                subscriber: 0,
                plan_pda: 1,
                subscription_pda: 2,
                subscription_authority: 3,
                event_authority: 4,
                self_program: 5,
            },
        )
    }
}

/// The verdict of a `ResumeSubscription` instruction over its accounts with
/// payload `data` at `current_ts`: the accounts, the subscription's version
/// and data, then [`resume_verdict`] (which reads the plan account only
/// after the subscription's own checks; a plan account this program no
/// longer owns counts as closed). Gives the resumed subscription.
pub open spec fn resume_accounts_verdict(accounts: Seq<AccountInfo>, data: ResumeData, current_ts: i64) -> Result<
    SubscriptionDelegation,
    SubscriptionsError,
> {
    match ResumeSubscriptionAccounts::verdict(accounts) {
        Err(e) => Err(e),
        Ok(_) => match subscription_account_verdict(accounts[2].data@) {
            Err(e) => Err(e),
            Ok(sub) => match resume_verdict(
                sub,
                accounts[0].address@,
                accounts[1].address@,
                if accounts[1].spec_owned_by_program() {
                    Some(accounts[1].data@)
                } else {
                    None
                },
                accounts[3].data@,
                data.expected_expires_at_ts,
                current_ts,
            ) {
                Err(e) => Err(e),
                Ok(()) => Ok(resumed(sub)),
            },
        },
    }
}

/// Decides a `ResumeSubscription` instruction (see
/// [`resume_accounts_verdict`]): the subscription to write back, its expiry
/// cleared.
pub fn process(accounts: &[AccountInfo], data: &ResumeData, current_ts: i64) -> (r: Result<
    SubscriptionDelegation,
    SubscriptionsError,
>)
    ensures
        r == resume_accounts_verdict(accounts@, *data, current_ts),
{
    let _picked = ResumeSubscriptionAccounts::try_from(accounts)?;
    let mut sub = load_subscription_account(accounts[2].data.as_slice())?;
    let plan = &accounts[1];
    let plan_data: Option<&[u8]> = if plan.owned_by_program() {
        Some(plan.data.as_slice())
    } else {
        None
    };
    resume(
        &mut sub,
        &accounts[0].address,
        &plan.address,
        plan_data,
        accounts[3].data.as_slice(),
        data,
        current_ts,
    )?;
    Ok(sub)
}

} // verus!
