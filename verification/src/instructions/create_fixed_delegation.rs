use vstd::prelude::*;

use crate::address::Address;
use crate::codec::{le_i64, le_u64, lemma_le_i64_injective, lemma_le_len, lemma_le_u64_injective, read_i64, read_u64, write_i64, write_u64};
use crate::constants::{drift_floor, drift_floor_of};
use crate::accounts::AccountInfo;
use crate::errors::SubscriptionsError;
use crate::instructions::delegation::{create_delegation_account, create_delegation_verdict, CreateDelegationAccounts};
use crate::state::common::AccountDiscriminator;
use crate::state::fixed_delegation::FixedDelegation;
use crate::state::header::Header;

verus! {

/// Instruction data for creating a fixed delegation.
#[derive(Clone, Copy, Debug, PartialEq, Eq)]
pub struct CreateFixedDelegationData {
    /// Client-chosen nonce distinguishing delegations between the same pair.
    pub nonce: u64,
    /// Total token amount the delegatee may transfer.
    pub amount: u64,
    /// Unix timestamp after which the delegation expires; `0` means none.
    pub expiry_ts: i64,
}

impl CreateFixedDelegationData {
    /// Serialized size in bytes.
    pub const LEN: usize = 24;

    /// The record's bytes.
    pub open spec fn encode(&self) -> Seq<u8> {
        le_u64(self.nonce) + le_u64(self.amount) + le_i64(self.expiry_ts)
    }

    /// The encoding is `LEN` bytes long.
    pub proof fn lemma_encode_len(&self)
        ensures
            self.encode().len() == Self::LEN,
    {
        lemma_le_len(self.nonce, 0);
        lemma_le_len(self.amount, 0);
        lemma_le_len(0, self.expiry_ts);
    }

    /// Two records with the same bytes are equal.
    pub proof fn lemma_encode_injective(a: Self, b: Self)
        requires
            a.encode() == b.encode(),
        ensures
            a == b,
    {
        lemma_le_len(a.nonce, 0);
        lemma_le_len(a.amount, 0);
        lemma_le_len(0, a.expiry_ts);
        lemma_le_len(b.nonce, 0);
        lemma_le_len(b.amount, 0);
        lemma_le_len(0, b.expiry_ts);
        let s = a.encode();
        assert(le_u64(a.nonce) =~= s.subrange(0, 8));
        assert(le_u64(b.nonce) =~= s.subrange(0, 8));
        lemma_le_u64_injective(a.nonce, b.nonce);
        assert(le_u64(a.amount) =~= s.subrange(8, 16));
        assert(le_u64(b.amount) =~= s.subrange(8, 16));
        lemma_le_u64_injective(a.amount, b.amount);
        assert(le_i64(a.expiry_ts) =~= s.subrange(16, 24));
        assert(le_i64(b.expiry_ts) =~= s.subrange(16, 24));
        lemma_le_i64_injective(a.expiry_ts, b.expiry_ts);
    }

    /// Decodes the first `LEN` bytes of `data`.
    pub fn parse(data: &[u8]) -> (d: Self)
        requires
            data@.len() >= Self::LEN,
        ensures
            d.encode() == data@.subrange(0, Self::LEN as int),
    {
        let d = CreateFixedDelegationData {
            nonce: read_u64(data, 0),
            amount: read_u64(data, 8),
            expiry_ts: read_i64(data, 16),
        };
        assert(d.encode() =~= data@.subrange(0, Self::LEN as int));
        d
    }

    /// Deserializes instruction data of exactly `LEN` bytes.
    pub fn load(bytes: &[u8]) -> (r: Result<Self, SubscriptionsError>)
        ensures
            match r {
                Ok(d) => d.encode() == bytes@,
                Err(e) => e == SubscriptionsError::InvalidInstructionData,
            },
            r is Ok <==> bytes@.len() == Self::LEN,
    {
        if bytes.len() != Self::LEN {
            return Err(SubscriptionsError::InvalidInstructionData);
        }
        let d = Self::parse(bytes);
        assert(bytes@.subrange(0, Self::LEN as int) =~= bytes@);
        Ok(d)
    }

    /// Serializes the record.
    pub fn to_bytes(&self) -> (v: Vec<u8>)
        ensures
            v@ == self.encode(),
    {
        let mut v: Vec<u8> = Vec::new();
        write_u64(&mut v, self.nonce);
        write_u64(&mut v, self.amount);
        write_i64(&mut v, self.expiry_ts);
        assert(v@ =~= self.encode());
        v
    }
}

impl CreateFixedDelegationData {
    /// The verdict of [`validate`](Self::validate): a finite expiry must not
    /// lie before `current_time` minus the drift tolerance, and the amount must
    /// be positive.
    pub open spec fn validation(&self, current_time: i64) -> Result<(), SubscriptionsError> {
        if self.expiry_ts != 0 && self.expiry_ts < drift_floor(current_time) {
            Err(SubscriptionsError::FixedDelegationExpiryInPast)
        } else if self.amount == 0 {
            Err(SubscriptionsError::FixedDelegationAmountZero)
        } else {
            Ok(())
        }
    }

    /// Validates the instruction data against the current clock time.
    pub fn validate(&self, current_time: i64) -> (r: Result<(), SubscriptionsError>)
        ensures
            r == self.validation(current_time),
    {
        if self.expiry_ts != 0 && self.expiry_ts < drift_floor_of(current_time) {
            return Err(SubscriptionsError::FixedDelegationExpiryInPast);
        }
        if self.amount == 0 {
            return Err(SubscriptionsError::FixedDelegationAmountZero);
        }
        Ok(())
    }

    /// The account written for a freshly created delegation.
    pub fn new_delegation(
        &self,
        bump: u8,
        delegator: &Address,
        delegatee: &Address,
        payer: &Address,
        init_id: i64,
        subscription_authority: &Address,
        mint: &Address,
    ) -> (d: FixedDelegation)
        ensures
            d.header == Header::spec_init(
                AccountDiscriminator::FixedDelegation,
                bump,
                *delegator,
                *delegatee,
                *payer,
                init_id,
            ),
            d.subscription_authority == *subscription_authority,
            d.mint == *mint,
            d.amount == self.amount,
            d.expiry_ts == self.expiry_ts,
    {
        FixedDelegation {
            header: Header::init(
                AccountDiscriminator::FixedDelegation,
                bump,
                delegator,
                delegatee,
                payer,
                init_id,
            ),
            subscription_authority: *subscription_authority,
            mint: *mint,
            amount: self.amount,
            expiry_ts: self.expiry_ts,
        }
    }
}

/// The verdict of a create instruction over `accounts` with payload `data`
/// at `current_ts`: the delegation to write into the new account and the
/// index of the account that funds it.
pub open spec fn create_verdict(accounts: Seq<AccountInfo>, data: CreateFixedDelegationData, current_ts: i64) -> Result<
    (FixedDelegation, int),
    SubscriptionsError,
> {
    if data.validation(current_ts) is Err {
        Err(data.validation(current_ts)->Err_0)
    } else {
        match CreateDelegationAccounts::verdict(accounts) {
            Err(e) => Err(e),
            Ok(picked) => match create_delegation_verdict(
                accounts[0],
                accounts[1],
                accounts[2],
                accounts[3],
                data.nonce,
                None,
            ) {
                Err(e) => Err(e),
                Ok((bump, init_id, mint)) => Ok(
                    (
                        FixedDelegation {
                            header: Header::spec_init(
                                AccountDiscriminator::FixedDelegation,
                                bump,
                                accounts[0].address,
                                accounts[3].address,
                                accounts[picked.payer as int].address,
                                init_id,
                            ),
                            subscription_authority: accounts[1].address,
                            mint,
            amount: data.amount,
            expiry_ts: data.expiry_ts,
                        },
                        picked.payer as int,
                    ),
                ),
            },
        }
    }
}

/// A fixed delegation is accepted for creation exactly when it grants a
/// positive amount and either never expires or expires no more than the
/// allowed drift (two minutes) before `current_time`.
pub proof fn law_fixed_creation_is_live(data: CreateFixedDelegationData, current_time: i64)
    ensures
        data.validation(current_time) is Ok <==> (data.amount > 0 && (data.expiry_ts == 0 || data.expiry_ts + 120
            >= current_time)),
        (data.expiry_ts != 0 && data.expiry_ts + 120 < current_time) ==> data.validation(current_time) == Err::<
            (),
            SubscriptionsError,
        >(SubscriptionsError::FixedDelegationExpiryInPast),
{
}

/// Decides the instruction: validates the payload, checks the accounts and
/// the delegation PDA, and returns the delegation to write once the
/// account is created, with the index of the account that funds it.
pub fn process(accounts: &[AccountInfo], data: &CreateFixedDelegationData, current_ts: i64) -> (r: Result<
    (FixedDelegation, usize),
    SubscriptionsError,
>)
    ensures
        match r {
            Ok((d, i)) => create_verdict(accounts@, *data, current_ts) == Ok::<(FixedDelegation, int), SubscriptionsError>(
                (d, i as int),
            ),
            Err(e) => create_verdict(accounts@, *data, current_ts) == Err::<(FixedDelegation, int), SubscriptionsError>(e),
        },
{
    data.validate(current_ts)?;
    let picked = CreateDelegationAccounts::try_from(accounts)?;
    let (bump, init_id, mint) = create_delegation_account(
        &accounts[picked.delegator],
        &accounts[picked.subscription_authority],
        &accounts[picked.delegation_account],
        &accounts[picked.delegatee],
        data.nonce,
        None,
    )?;
    let d = data.new_delegation(
        bump,
        &accounts[picked.delegator].address,
        &accounts[picked.delegatee].address,
        &accounts[picked.payer].address,
        init_id,
        &accounts[picked.subscription_authority].address,
        &mint,
    );
    Ok((d, picked.payer))
}

} // verus!

