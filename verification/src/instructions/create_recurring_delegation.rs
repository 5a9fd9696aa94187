use vstd::prelude::*;

use crate::address::Address;
use crate::codec::{le_i64, le_u64, lemma_le_i64_injective, lemma_le_len, lemma_le_u64_injective, read_i64, read_u64, write_i64, write_u64};
use crate::constants::{drift_floor, drift_floor_of};
use crate::accounts::AccountInfo;
use crate::errors::SubscriptionsError;
use crate::instructions::delegation::{create_delegation_account, create_delegation_verdict, CreateDelegationAccounts};
use crate::state::common::AccountDiscriminator;
use crate::state::recurring_delegation::RecurringDelegation;
use crate::state::header::Header;

verus! {

/// Instruction data for creating a recurring delegation.
#[derive(Clone, Copy, Debug, PartialEq, Eq)]
pub struct CreateRecurringDelegationData {
    /// Client-chosen nonce distinguishing delegations between the same pair.
    pub nonce: u64,
    /// Maximum token amount the delegatee may transfer per period.
    pub amount_per_period: u64,
    /// Length of each period in seconds.
    pub period_length_s: u64,
    /// Unix timestamp when the first period begins.
    pub start_ts: i64,
    /// Unix timestamp after which the delegation expires; `0` means none.
    pub expiry_ts: i64,
}

impl CreateRecurringDelegationData {
    /// Serialized size in bytes.
    pub const LEN: usize = 40;

    /// The record's bytes.
    pub open spec fn encode(&self) -> Seq<u8> {
        le_u64(self.nonce) + le_u64(self.amount_per_period) + le_u64(self.period_length_s) + le_i64(self.start_ts) + le_i64(self.expiry_ts)
    }

    /// The encoding is `LEN` bytes long.
    pub proof fn lemma_encode_len(&self)
        ensures
            self.encode().len() == Self::LEN,
    {
        lemma_le_len(self.nonce, 0);
        lemma_le_len(self.amount_per_period, 0);
        lemma_le_len(self.period_length_s, 0);
        lemma_le_len(0, self.start_ts);
        lemma_le_len(0, self.expiry_ts);
    }

    /// Two records with the same bytes are equal.
    pub proof fn lemma_encode_injective(a: Self, b: Self)
        requires
            a.encode() == b.encode(),
        ensures
            a == b,
    {
        lemma_le_len(a.nonce, 0);
        lemma_le_len(a.amount_per_period, 0);
        lemma_le_len(a.period_length_s, 0);
        lemma_le_len(0, a.start_ts);
        lemma_le_len(0, a.expiry_ts);
        lemma_le_len(b.nonce, 0);
        lemma_le_len(b.amount_per_period, 0);
        lemma_le_len(b.period_length_s, 0);
        lemma_le_len(0, b.start_ts);
        lemma_le_len(0, b.expiry_ts);
        let s = a.encode();
        assert(le_u64(a.nonce) =~= s.subrange(0, 8));
        assert(le_u64(b.nonce) =~= s.subrange(0, 8));
        lemma_le_u64_injective(a.nonce, b.nonce);
        assert(le_u64(a.amount_per_period) =~= s.subrange(8, 16));
        assert(le_u64(b.amount_per_period) =~= s.subrange(8, 16));
        lemma_le_u64_injective(a.amount_per_period, b.amount_per_period);
        assert(le_u64(a.period_length_s) =~= s.subrange(16, 24));
        assert(le_u64(b.period_length_s) =~= s.subrange(16, 24));
        lemma_le_u64_injective(a.period_length_s, b.period_length_s);
        assert(le_i64(a.start_ts) =~= s.subrange(24, 32));
        assert(le_i64(b.start_ts) =~= s.subrange(24, 32));
        lemma_le_i64_injective(a.start_ts, b.start_ts);
        assert(le_i64(a.expiry_ts) =~= s.subrange(32, 40));
        assert(le_i64(b.expiry_ts) =~= s.subrange(32, 40));
        lemma_le_i64_injective(a.expiry_ts, b.expiry_ts);
    }

    /// Decodes the first `LEN` bytes of `data`.
    pub fn parse(data: &[u8]) -> (d: Self)
        requires
            data@.len() >= Self::LEN,
        ensures
            d.encode() == data@.subrange(0, Self::LEN as int),
    {
        let d = CreateRecurringDelegationData {
            nonce: read_u64(data, 0),
            amount_per_period: read_u64(data, 8),
            period_length_s: read_u64(data, 16),
            start_ts: read_i64(data, 24),
            expiry_ts: read_i64(data, 32),
        };
        assert(d.encode() =~= data@.subrange(0, Self::LEN as int));
        d
    }

    /// Deserializes instruction data of exactly `LEN` bytes.
    pub fn load(bytes: &[u8]) -> (r: Result<Self, SubscriptionsError>)
        ensures
            match r {
                Ok(d) => d.encode() == bytes@,
                Err(e) => e == SubscriptionsError::InvalidInstructionData,
            },
            r is Ok <==> bytes@.len() == Self::LEN,
    {
        if bytes.len() != Self::LEN {
            return Err(SubscriptionsError::InvalidInstructionData);
        }
        let d = Self::parse(bytes);
        assert(bytes@.subrange(0, Self::LEN as int) =~= bytes@);
        Ok(d)
    }

    /// Serializes the record.
    pub fn to_bytes(&self) -> (v: Vec<u8>)
        ensures
            v@ == self.encode(),
    {
        let mut v: Vec<u8> = Vec::new();
        write_u64(&mut v, self.nonce);
        write_u64(&mut v, self.amount_per_period);
        write_u64(&mut v, self.period_length_s);
        write_i64(&mut v, self.start_ts);
        write_i64(&mut v, self.expiry_ts);
        assert(v@ =~= self.encode());
        v
    }
}

/// Longest allowed period of a recurring delegation: 365 days in seconds.
pub const MAX_DELEGATION_PERIOD_SECS: u64 = 31_536_000;

impl CreateRecurringDelegationData {
    /// The verdict of [`validate`](Self::validate).
    pub open spec fn validation(&self, current_time: i64) -> Result<(), SubscriptionsError> {
        if self.start_ts < drift_floor(current_time) {
            Err(SubscriptionsError::RecurringDelegationStartTimeInPast)
        } else if self.period_length_s == 0 || self.period_length_s > MAX_DELEGATION_PERIOD_SECS {
            Err(SubscriptionsError::InvalidPeriodLength)
        } else if self.expiry_ts != 0 && self.start_ts >= self.expiry_ts {
            Err(SubscriptionsError::RecurringDelegationStartTimeGreaterThanExpiry)
        } else if self.amount_per_period == 0 {
            Err(SubscriptionsError::RecurringDelegationAmountZero)
        } else {
            Ok(())
        }
    }

    /// Validates the instruction data against the current clock time.
    pub fn validate(&self, current_time: i64) -> (r: Result<(), SubscriptionsError>)
        ensures
            r == self.validation(current_time),
    {
        if self.start_ts < drift_floor_of(current_time) {
            return Err(SubscriptionsError::RecurringDelegationStartTimeInPast);
        }
        if self.period_length_s == 0 || self.period_length_s > MAX_DELEGATION_PERIOD_SECS {
            return Err(SubscriptionsError::InvalidPeriodLength);
        }
        if self.expiry_ts != 0 && self.start_ts >= self.expiry_ts {
            return Err(SubscriptionsError::RecurringDelegationStartTimeGreaterThanExpiry);
        }
        if self.amount_per_period == 0 {
            return Err(SubscriptionsError::RecurringDelegationAmountZero);
        }
        Ok(())
    }

    /// The account written for a freshly created delegation: the first
    /// period starts at `start_ts` with nothing pulled.
    pub fn new_delegation(
        &self,
        bump: u8,
        delegator: &Address,
        delegatee: &Address,
        payer: &Address,
        init_id: i64,
        subscription_authority: &Address,
        mint: &Address,
    ) -> (d: RecurringDelegation)
        ensures
            d.header == Header::spec_init(
                AccountDiscriminator::RecurringDelegation,
                bump,
                *delegator,
                *delegatee,
                *payer,
                init_id,
            ),
            d.subscription_authority == *subscription_authority,
            d.mint == *mint,
            d.current_period_start_ts == self.start_ts,
            d.period_length_s == self.period_length_s,
            d.expiry_ts == self.expiry_ts,
            d.amount_per_period == self.amount_per_period,
            d.amount_pulled_in_period == 0,
    {
        RecurringDelegation {
            header: Header::init(
                AccountDiscriminator::RecurringDelegation,
                bump,
                delegator,
                delegatee,
                payer,
                init_id,
            ),
            subscription_authority: *subscription_authority,
            mint: *mint,
            current_period_start_ts: self.start_ts,
            period_length_s: self.period_length_s,
            expiry_ts: self.expiry_ts,
            amount_per_period: self.amount_per_period,
            amount_pulled_in_period: 0,
        }
    }
}

/// The verdict of a create instruction over `accounts` with payload `data`
/// at `current_ts`: the delegation to write into the new account and the
/// index of the account that funds it.
pub open spec fn create_verdict(accounts: Seq<AccountInfo>, data: CreateRecurringDelegationData, current_ts: i64) -> Result<
    (RecurringDelegation, int),
    SubscriptionsError,
> {
    if data.validation(current_ts) is Err {
        Err(data.validation(current_ts)->Err_0)
    } else {
        match CreateDelegationAccounts::verdict(accounts) {
            Err(e) => Err(e),
            Ok(picked) => match create_delegation_verdict(
                accounts[0],
                accounts[1],
                accounts[2],
                accounts[3],
                data.nonce,
                None,
            ) {
                Err(e) => Err(e),
                Ok((bump, init_id, mint)) => Ok(
                    (
                        RecurringDelegation {
                            header: Header::spec_init(
                                AccountDiscriminator::RecurringDelegation,
                                bump,
                                accounts[0].address,
                                accounts[3].address,
                                accounts[picked.payer as int].address,
                                init_id,
                            ),
                            subscription_authority: accounts[1].address,
                            mint,
            current_period_start_ts: data.start_ts,
            period_length_s: data.period_length_s,
            expiry_ts: data.expiry_ts,
            amount_per_period: data.amount_per_period,
            amount_pulled_in_period: 0,
                        },
                        picked.payer as int,
                    ),
                ),
            },
        }
    }
}

/// A recurring delegation is accepted for creation exactly when it starts
/// no more than the allowed drift (two minutes) before `current_time`, has
/// a period of one second to one year, starts strictly before a finite
/// expiry (a delegation that would expire before or as it starts is
/// refused), and grants a positive amount per period.
pub proof fn law_recurring_creation_starts_before_expiry(data: CreateRecurringDelegationData, current_time: i64)
    ensures
        data.validation(current_time) is Ok <==> (data.start_ts + 120 >= current_time && 0 < data.period_length_s
            <= 31_536_000 && (data.expiry_ts == 0 || data.start_ts < data.expiry_ts) && data.amount_per_period > 0),
        (data.start_ts + 120 >= current_time && 0 < data.period_length_s <= 31_536_000 && data.expiry_ts != 0
            && data.start_ts >= data.expiry_ts) ==> data.validation(current_time) == Err::<(), SubscriptionsError>(
            SubscriptionsError::RecurringDelegationStartTimeGreaterThanExpiry,
        ),
{
}

/// Every recurring delegation the instruction creates starts strictly
/// before its finite expiry, with nothing pulled yet.
pub proof fn law_created_recurring_delegation_is_live(
    accounts: Seq<AccountInfo>,
    data: CreateRecurringDelegationData,
    current_ts: i64,
)
    requires
        create_verdict(accounts, data, current_ts) is Ok,
    ensures
        ({
            let d = create_verdict(accounts, data, current_ts)->Ok_0.0;
            &&& d.expiry_ts == 0 || d.current_period_start_ts < d.expiry_ts
            &&& d.current_period_start_ts == data.start_ts && d.expiry_ts == data.expiry_ts
            &&& d.current_period_start_ts + 120 >= current_ts
            &&& d.period_length_s > 0 && d.amount_per_period > 0
            &&& d.amount_pulled_in_period == 0
        }),
{
}

/// Decides the instruction: validates the payload, checks the accounts and
/// the delegation PDA, and returns the delegation to write once the
/// account is created, with the index of the account that funds it.
pub fn process(accounts: &[AccountInfo], data: &CreateRecurringDelegationData, current_ts: i64) -> (r: Result<
    (RecurringDelegation, usize),
    SubscriptionsError,
>)
    ensures
        match r {
            Ok((d, i)) => create_verdict(accounts@, *data, current_ts) == Ok::<(RecurringDelegation, int), SubscriptionsError>(
                (d, i as int),
            ),
            Err(e) => create_verdict(accounts@, *data, current_ts) == Err::<(RecurringDelegation, int), SubscriptionsError>(e),
        },
{
    data.validate(current_ts)?;
    let picked = CreateDelegationAccounts::try_from(accounts)?;
    let (bump, init_id, mint) = create_delegation_account(
        &accounts[picked.delegator],
        &accounts[picked.subscription_authority],
        &accounts[picked.delegation_account],
        &accounts[picked.delegatee],
        data.nonce,
        None,
    )?;
    let d = data.new_delegation(
        bump,
        &accounts[picked.delegator].address,
        &accounts[picked.delegatee].address,
        &accounts[picked.payer].address,
        init_id,
        &accounts[picked.subscription_authority].address,
        &mint,
    );
    Ok((d, picked.payer))
}

} // verus!

