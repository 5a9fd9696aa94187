use vstd::prelude::*;

use crate::accounts::{AccountInfo, ProgramAccount, SignerAccount, WritableAccount};
use crate::address::Address;
use crate::codec::{addresses_bytes, le_i64, lemma_addresses_bytes_injective, lemma_addresses_bytes_len, lemma_le_i64_injective, lemma_le_len, read_addresses, read_i64, read_uri, write_addresses, write_i64, write_uri};
use crate::errors::SubscriptionsError;
use crate::state::common::{plan_end_ts_verdict, validate_plan_end_ts, PlanStatus};
use crate::state::plan::{Plan, PlanData};

verus! {

/// Instruction data for updating a plan's mutable fields.
#[derive(Clone, Copy, Debug, PartialEq, Eq)]
pub struct UpdatePlanData {
    /// New plan status byte.
    pub status: u8,
    /// New end timestamp; `0` means no end.
    pub end_ts: i64,
    /// Updated puller whitelist.
    pub pullers: [Address; 4],
    /// Updated metadata URI.
    pub metadata_uri: [u8; 128],
}

impl UpdatePlanData {
    /// Serialized size in bytes.
    pub const LEN: usize = 265;

    /// The record's bytes.
    pub open spec fn encode(&self) -> Seq<u8> {
        seq![self.status] + le_i64(self.end_ts) + addresses_bytes(self.pullers) + self.metadata_uri@
    }

    /// The encoding is `LEN` bytes long.
    pub proof fn lemma_encode_len(&self)
        ensures
            self.encode().len() == Self::LEN,
    {
        lemma_le_len(0, self.end_ts);
        lemma_addresses_bytes_len(self.pullers);
    }

    /// Two records with the same bytes are equal.
    pub proof fn lemma_encode_injective(a: Self, b: Self)
        requires
            a.encode() == b.encode(),
        ensures
            a == b,
    {
        lemma_le_len(0, a.end_ts);
        lemma_addresses_bytes_len(a.pullers);
        lemma_le_len(0, b.end_ts);
        lemma_addresses_bytes_len(b.pullers);
        let s = a.encode();
        assert(s[0] == a.status && s[0] == b.status);
        assert(le_i64(a.end_ts) =~= s.subrange(1, 9));
        assert(le_i64(b.end_ts) =~= s.subrange(1, 9));
        lemma_le_i64_injective(a.end_ts, b.end_ts);
        assert(addresses_bytes(a.pullers) =~= s.subrange(9, 137));
        assert(addresses_bytes(b.pullers) =~= s.subrange(9, 137));
        lemma_addresses_bytes_injective(a.pullers, b.pullers);
        assert(a.metadata_uri@ =~= s.subrange(137, 265));
        assert(b.metadata_uri@ =~= s.subrange(137, 265));
        assert(a.metadata_uri == b.metadata_uri);
    }

    /// Decodes the first `LEN` bytes of `data`.
    pub fn parse(data: &[u8]) -> (d: Self)
        requires
            data@.len() >= Self::LEN,
        ensures
            d.encode() == data@.subrange(0, Self::LEN as int),
    {
        let d = UpdatePlanData {
            status: data[0],
            end_ts: read_i64(data, 1),
            pullers: read_addresses(data, 9),
            metadata_uri: read_uri(data, 137),
        };
        assert(d.encode() =~= data@.subrange(0, Self::LEN as int));
        d
    }

    /// Deserializes instruction data of exactly `LEN` bytes.
    pub fn load(bytes: &[u8]) -> (r: Result<Self, SubscriptionsError>)
        ensures
            match r {
                Ok(d) => d.encode() == bytes@,
                Err(e) => e == SubscriptionsError::InvalidInstructionData,
            },
            r is Ok <==> bytes@.len() == Self::LEN,
    {
        if bytes.len() != Self::LEN {
            return Err(SubscriptionsError::InvalidInstructionData);
        }
        let d = Self::parse(bytes);
        assert(bytes@.subrange(0, Self::LEN as int) =~= bytes@);
        Ok(d)
    }

    /// Serializes the record.
    pub fn to_bytes(&self) -> (v: Vec<u8>)
        ensures
            v@ == self.encode(),
    {
        let mut v: Vec<u8> = Vec::new();
        v.push(self.status);
        write_i64(&mut v, self.end_ts);
        write_addresses(&mut v, &self.pullers);
        write_uri(&mut v, &self.metadata_uri);
        assert(v@ =~= self.encode());
        v
    }
}

impl UpdatePlanData {
    /// The verdict of [`validate`](Self::validate): a known status, and a
    /// finite end strictly in the future.
    pub open spec fn validation(&self, current_time: i64) -> Result<(), SubscriptionsError> {
        if self.status > 1 {
            Err(SubscriptionsError::InvalidPlanStatus)
        } else if self.end_ts != 0 && self.end_ts <= current_time {
            Err(SubscriptionsError::InvalidEndTs)
        } else {
            Ok(())
        }
    }

    /// Validates update data against the current clock time.
    pub fn validate(&self, current_time: i64) -> (r: Result<(), SubscriptionsError>)
        ensures
            r == self.validation(current_time),
    {
        PlanStatus::try_from_u8(self.status)?;
        if self.end_ts != 0 && self.end_ts <= current_time {
            return Err(SubscriptionsError::InvalidEndTs);
        }
        Ok(())
    }
}

/// The verdict of `owner` updating `plan` with `data` at `current_ts`.
pub open spec fn update_plan_verdict(
    plan: Plan,
    owner: Seq<u8>,
    data: UpdatePlanData,
    current_ts: i64,
) -> Result<(), SubscriptionsError> {
    if plan.owner@ != owner {
        Err(SubscriptionsError::NotPlanOwner)
    } else if plan.status == PlanStatus::Sunset.byte() {
        Err(SubscriptionsError::PlanImmutableAfterSunset)
    } else if data.status == PlanStatus::Sunset.byte() && data.end_ts == 0 {
        Err(SubscriptionsError::SunsetRequiresEndTs)
    } else if data.validation(current_ts) is Err {
        data.validation(current_ts)
    } else if plan_end_ts_verdict(data.end_ts, plan.data.terms.period_hours, current_ts) is Err {
        plan_end_ts_verdict(data.end_ts, plan.data.terms.period_hours, current_ts)
    } else if plan.data.end_ts != 0 && current_ts > plan.data.end_ts {
        Err(SubscriptionsError::PlanExpired)
    } else if plan.data.end_ts != 0 && (data.end_ts == 0 || data.end_ts > plan.data.end_ts) {
        Err(SubscriptionsError::PlanEndTsCannotExtend)
    } else {
        Ok(())
    }
}

/// The plan after an accepted update: only the status, end, pullers and
/// metadata change.
pub open spec fn updated_plan(plan: Plan, data: UpdatePlanData) -> Plan {
    Plan {
        status: data.status,
        data: PlanData {
            end_ts: data.end_ts,
            pullers: data.pullers,
            metadata_uri: data.metadata_uri,
            ..plan.data
        },
        ..plan
    }
}

/// Updates the mutable fields of a plan on behalf of `owner`. The plan is
/// unchanged when the update is refused.
pub fn apply_plan_update(plan: &mut Plan, owner: &Address, data: &UpdatePlanData, current_ts: i64) -> (r:
    Result<(), SubscriptionsError>)
    ensures
        r == update_plan_verdict(*old(plan), owner@, *data, current_ts),
        r is Ok ==> *final(plan) == updated_plan(*old(plan), *data),
        r is Err ==> *final(plan) == *old(plan),
{
    if !plan.owner.equals(owner) {
        return Err(SubscriptionsError::NotPlanOwner);
    }
    if plan.status == PlanStatus::Sunset.as_u8() {
        return Err(SubscriptionsError::PlanImmutableAfterSunset);
    }
    if data.status == PlanStatus::Sunset.as_u8() && data.end_ts == 0 {
        return Err(SubscriptionsError::SunsetRequiresEndTs);
    }
    data.validate(current_ts)?;
    validate_plan_end_ts(data.end_ts, plan.data.terms.period_hours, current_ts)?;
    if plan.data.end_ts != 0 && current_ts > plan.data.end_ts {
        return Err(SubscriptionsError::PlanExpired);
    }
    let old_end_ts = plan.data.end_ts;
    if old_end_ts != 0 && (data.end_ts == 0 || data.end_ts > old_end_ts) {
        return Err(SubscriptionsError::PlanEndTsCannotExtend);
    }
    plan.status = data.status;
    plan.data.end_ts = data.end_ts;
    plan.data.pullers = data.pullers;
    plan.data.metadata_uri = data.metadata_uri;
    Ok(())
}

/// The rules that every accepted plan update keeps: a sunset plan cannot be
/// updated; a finite end is only ever shortened (never removed or
/// extended); a plan can only be sunset with a finite end; and the mint,
/// terms, destinations, owner and id never change.
pub proof fn law_plan_update_rules(plan: Plan, owner: Seq<u8>, data: UpdatePlanData, current_ts: i64)
    requires
        update_plan_verdict(plan, owner, data, current_ts) is Ok,
    ensures
        plan.status != PlanStatus::Sunset.byte(),
        plan.data.end_ts != 0 ==> updated_plan(plan, data).data.end_ts != 0
            && updated_plan(plan, data).data.end_ts <= plan.data.end_ts,
        updated_plan(plan, data).status == PlanStatus::Sunset.byte() ==> updated_plan(
            plan,
            data,
        ).data.end_ts != 0,
        updated_plan(plan, data).data.terms == plan.data.terms,
        updated_plan(plan, data).data.mint == plan.data.mint,
        updated_plan(plan, data).data.destinations == plan.data.destinations,
        updated_plan(plan, data).data.plan_id == plan.data.plan_id,
        updated_plan(plan, data).owner == plan.owner,
{
}

/// The accounts of an `UpdatePlan` instruction, by index.
pub struct UpdatePlanAccounts {
    /// The plan owner (signer).
    pub owner: usize,
    /// The plan account (writable, program-owned).
    pub plan_pda: usize,
}

impl UpdatePlanAccounts {
    /// The verdict of [`Self::try_from`].
    pub open spec fn verdict(accounts: Seq<AccountInfo>) -> Result<Self, SubscriptionsError> {
        if accounts.len() != 2 {
            Err(SubscriptionsError::NotEnoughAccountKeys)
        } else if !accounts[0].is_signer {
            Err(SubscriptionsError::NotSigner)
        } else if !accounts[1].is_writable {
            Err(SubscriptionsError::AccountNotWritable)
        } else if !accounts[1].spec_owned_by_program() {
            Err(SubscriptionsError::InvalidAccountOwner)
        } else {
            Ok(UpdatePlanAccounts { owner: 0, plan_pda: 1 })
        }
    }

    /// Picks and checks exactly two accounts: the owner and the plan.
    pub fn try_from(accounts: &[AccountInfo]) -> (r: Result<Self, SubscriptionsError>)
        ensures
            r == Self::verdict(accounts@),
    {
        if accounts.len() != 2 {
            return Err(SubscriptionsError::NotEnoughAccountKeys);
        }
        SignerAccount::check(&accounts[0])?;
        WritableAccount::check(&accounts[1])?;
        ProgramAccount::check(&accounts[1])?;
        Ok(UpdatePlanAccounts { owner: 0, plan_pda: 1 })
    }
}

/// The verdict of an `UpdatePlan` instruction at `current_ts`: the plan to
/// write back.
pub open spec fn update_verdict(accounts: Seq<AccountInfo>, data: UpdatePlanData, current_ts: i64) -> Result<
    Plan,
    SubscriptionsError,
> {
    match UpdatePlanAccounts::verdict(accounts) {
        Err(e) => Err(e),
        Ok(_) => match Plan::load_verdict(accounts[1].data@) {
            Err(e) => Err(e),
            Ok(plan) => match update_plan_verdict(plan, accounts[0].address@, data, current_ts) {
                Err(e) => Err(e),
                Ok(()) => Ok(updated_plan(plan, data)),
            },
        },
    }
}

/// Decides an `UpdatePlan` instruction; returns the updated plan to write
/// into the plan account.
pub fn process(accounts: &[AccountInfo], data: &UpdatePlanData, current_ts: i64) -> (r: Result<
    Plan,
    SubscriptionsError,
>)
    ensures
        r == update_verdict(accounts@, *data, current_ts),
{
    let picked = UpdatePlanAccounts::try_from(accounts)?;
    let loaded = Plan::load(accounts[picked.plan_pda].data.as_slice());
    proof {
        Plan::lemma_load_verdict(accounts@[1].data@, loaded);
    }
    let mut plan = loaded?;
    apply_plan_update(&mut plan, &accounts[picked.owner].address, data, current_ts)?;
    Ok(plan)
}

/// An accepted update writes what it was given: the plan afterwards carries
/// the update's status, end, pullers and metadata URI, keeps everything
/// else, and a finite new end leaves room for a full billing period after
/// the update.
pub proof fn law_plan_update_takes_new_values(plan: Plan, owner: Seq<u8>, data: UpdatePlanData, current_ts: i64)
    requires
        update_plan_verdict(plan, owner, data, current_ts) is Ok,
    ensures
        updated_plan(plan, data).status == data.status,
        updated_plan(plan, data).data.end_ts == data.end_ts,
        updated_plan(plan, data).data.pullers == data.pullers,
        updated_plan(plan, data).data.metadata_uri == data.metadata_uri,
        updated_plan(plan, data) == (Plan {
            status: data.status,
            data: PlanData {
                end_ts: data.end_ts,
                pullers: data.pullers,
                metadata_uri: data.metadata_uri,
                plan_id: plan.data.plan_id,
                mint: plan.data.mint,
                terms: plan.data.terms,
                destinations: plan.data.destinations,
            },
            discriminator: plan.discriminator,
            owner: plan.owner,
            bump: plan.bump,
        }),
        data.end_ts == 0 || data.end_ts >= current_ts + plan.data.terms.period_hours * 3600,
{
}

/// The plan an accepted `UpdatePlan` instruction writes back carries the
/// update's pullers, metadata URI, status and end.
pub proof fn law_update_instruction_writes_update(accounts: Seq<AccountInfo>, data: UpdatePlanData, current_ts: i64)
    requires
        update_verdict(accounts, data, current_ts) is Ok,
    ensures
        ({
            let p = update_verdict(accounts, data, current_ts)->Ok_0;
            &&& p.data.pullers == data.pullers
            &&& p.data.metadata_uri == data.metadata_uri
            &&& p.status == data.status
            &&& p.data.end_ts == data.end_ts
        }),
{
}

} // verus!
