use vstd::prelude::*;

use crate::address::{zero_address, Address};
use crate::codec::{le_i64, le_u64, lemma_le_i64_injective, lemma_le_len, lemma_le_u64_injective, read_address, read_i64, read_u64, write_address, write_i64, write_u64};
use crate::constants::{drift_floor, drift_floor_of};
use crate::accounts::AccountInfo;
use crate::errors::SubscriptionsError;
use crate::instructions::delegation::{create_delegation_account, create_delegation_verdict, CreateDelegationAccounts};
use crate::state::common::AccountDiscriminator;
use crate::state::header::Header;
use crate::state::up_to_delegation::UpToDelegation;

verus! {

/// Instruction data for creating an up-to (single-use, recipient-bound) delegation.
#[derive(Clone, Copy, Debug, PartialEq, Eq)]
pub struct CreateUpToDelegationData {
    /// Client-chosen nonce distinguishing delegations between the same pair.
    pub nonce: u64,
    /// Ceiling for the single draw.
    pub max_amount: u64,
    /// The bound recipient wallet.
    pub recipient: Address,
    /// Unix timestamp after which the delegation expires; `0` means none.
    pub expiry_ts: i64,
    /// SubscriptionAuthority generation the delegator approved.
    pub expected_subscription_authority_init_id: i64,
}

impl CreateUpToDelegationData {
    /// Serialized size in bytes.
    pub const LEN: usize = 64;

    /// The record's bytes.
    pub open spec fn encode(&self) -> Seq<u8> {
        le_u64(self.nonce) + le_u64(self.max_amount) + self.recipient@ + le_i64(self.expiry_ts) + le_i64(self.expected_subscription_authority_init_id)
    }

    /// The encoding is `LEN` bytes long.
    pub proof fn lemma_encode_len(&self)
        ensures
            self.encode().len() == Self::LEN,
    {
        lemma_le_len(self.nonce, 0);
        lemma_le_len(self.max_amount, 0);
        lemma_le_len(0, self.expiry_ts);
        lemma_le_len(0, self.expected_subscription_authority_init_id);
    }

    /// Two records with the same bytes are equal.
    pub proof fn lemma_encode_injective(a: Self, b: Self)
        requires
            a.encode() == b.encode(),
        ensures
            a == b,
    {
        lemma_le_len(a.nonce, 0);
        lemma_le_len(a.max_amount, 0);
        lemma_le_len(0, a.expiry_ts);
        lemma_le_len(0, a.expected_subscription_authority_init_id);
        lemma_le_len(b.nonce, 0);
        lemma_le_len(b.max_amount, 0);
        lemma_le_len(0, b.expiry_ts);
        lemma_le_len(0, b.expected_subscription_authority_init_id);
        let s = a.encode();
        assert(le_u64(a.nonce) =~= s.subrange(0, 8));
        assert(le_u64(b.nonce) =~= s.subrange(0, 8));
        lemma_le_u64_injective(a.nonce, b.nonce);
        assert(le_u64(a.max_amount) =~= s.subrange(8, 16));
        assert(le_u64(b.max_amount) =~= s.subrange(8, 16));
        lemma_le_u64_injective(a.max_amount, b.max_amount);
        assert(a.recipient@ =~= s.subrange(16, 48));
        assert(b.recipient@ =~= s.subrange(16, 48));
        assert(a.recipient.bytes == b.recipient.bytes);
        assert(le_i64(a.expiry_ts) =~= s.subrange(48, 56));
        assert(le_i64(b.expiry_ts) =~= s.subrange(48, 56));
        lemma_le_i64_injective(a.expiry_ts, b.expiry_ts);
        assert(le_i64(a.expected_subscription_authority_init_id) =~= s.subrange(56, 64));
        assert(le_i64(b.expected_subscription_authority_init_id) =~= s.subrange(56, 64));
        lemma_le_i64_injective(a.expected_subscription_authority_init_id, b.expected_subscription_authority_init_id);
    }

    /// Decodes the first `LEN` bytes of `data`.
    pub fn parse(data: &[u8]) -> (d: Self)
        requires
            data@.len() >= Self::LEN,
        ensures
            d.encode() == data@.subrange(0, Self::LEN as int),
    {
        let d = CreateUpToDelegationData {
            nonce: read_u64(data, 0),
            max_amount: read_u64(data, 8),
            recipient: read_address(data, 16),
            expiry_ts: read_i64(data, 48),
            expected_subscription_authority_init_id: read_i64(data, 56),
        };
        assert(d.encode() =~= data@.subrange(0, Self::LEN as int));
        d
    }

    /// Deserializes instruction data of exactly `LEN` bytes.
    pub fn load(bytes: &[u8]) -> (r: Result<Self, SubscriptionsError>)
        ensures
            match r {
                Ok(d) => d.encode() == bytes@,
                Err(e) => e == SubscriptionsError::InvalidInstructionData,
            },
            r is Ok <==> bytes@.len() == Self::LEN,
    {
        if bytes.len() != Self::LEN {
            return Err(SubscriptionsError::InvalidInstructionData);
        }
        let d = Self::parse(bytes);
        assert(bytes@.subrange(0, Self::LEN as int) =~= bytes@);
        Ok(d)
    }

    /// Serializes the record.
    pub fn to_bytes(&self) -> (v: Vec<u8>)
        ensures
            v@ == self.encode(),
    {
        let mut v: Vec<u8> = Vec::new();
        write_u64(&mut v, self.nonce);
        write_u64(&mut v, self.max_amount);
        write_address(&mut v, &self.recipient);
        write_i64(&mut v, self.expiry_ts);
        write_i64(&mut v, self.expected_subscription_authority_init_id);
        assert(v@ =~= self.encode());
        v
    }
}

impl CreateUpToDelegationData {
    /// The verdict of [`validate`](Self::validate).
    pub open spec fn validation(&self, current_time: i64) -> Result<(), SubscriptionsError> {
        if self.expiry_ts != 0 && self.expiry_ts < drift_floor(current_time) {
            Err(SubscriptionsError::UpToDelegationExpiryInPast)
        } else if self.max_amount == 0 {
            Err(SubscriptionsError::UpToDelegationAmountZero)
        } else if self.recipient@ == zero_address() {
            Err(SubscriptionsError::InvalidAddress)
        } else {
            Ok(())
        }
    }

    /// Validates the instruction data against the current clock time.
    pub fn validate(&self, current_time: i64) -> (r: Result<(), SubscriptionsError>)
        ensures
            r == self.validation(current_time),
    {
        if self.expiry_ts != 0 && self.expiry_ts < drift_floor_of(current_time) {
            return Err(SubscriptionsError::UpToDelegationExpiryInPast);
        }
        if self.max_amount == 0 {
            return Err(SubscriptionsError::UpToDelegationAmountZero);
        }
        if self.recipient.is_zero() {
            return Err(SubscriptionsError::InvalidAddress);
        }
        Ok(())
    }

    /// The account written for a freshly created delegation.
    pub fn new_delegation(
        &self,
        bump: u8,
        delegator: &Address,
        delegatee: &Address,
        payer: &Address,
        init_id: i64,
        subscription_authority: &Address,
        mint: &Address,
    ) -> (d: UpToDelegation)
        ensures
            d.header == Header::spec_init(
                AccountDiscriminator::UpToDelegation,
                bump,
                *delegator,
                *delegatee,
                *payer,
                init_id,
            ),
            d.subscription_authority == *subscription_authority,
            d.mint == *mint,
            d.recipient == self.recipient,
            d.max_amount == self.max_amount,
            d.expiry_ts == self.expiry_ts,
    {
        UpToDelegation {
            header: Header::init(
                AccountDiscriminator::UpToDelegation,
                bump,
                delegator,
                delegatee,
                payer,
                init_id,
            ),
            subscription_authority: *subscription_authority,
            mint: *mint,
            recipient: self.recipient,
            max_amount: self.max_amount,
            expiry_ts: self.expiry_ts,
        }
    }
}

/// The verdict of a create instruction over `accounts` with payload `data`
/// at `current_ts`: the delegation to write into the new account and the
/// index of the account that funds it.
pub open spec fn create_verdict(accounts: Seq<AccountInfo>, data: CreateUpToDelegationData, current_ts: i64) -> Result<
    (UpToDelegation, int),
    SubscriptionsError,
> {
    if data.validation(current_ts) is Err {
        Err(data.validation(current_ts)->Err_0)
    } else {
        match CreateDelegationAccounts::verdict(accounts) {
            Err(e) => Err(e),
            Ok(picked) => match create_delegation_verdict(
                accounts[0],
                accounts[1],
                accounts[2],
                accounts[3],
                data.nonce,
                Some(data.expected_subscription_authority_init_id),
            ) {
                Err(e) => Err(e),
                Ok((bump, init_id, mint)) => Ok(
                    (
                        UpToDelegation {
                            header: Header::spec_init(
                                AccountDiscriminator::UpToDelegation,
                                bump,
                                accounts[0].address,
                                accounts[3].address,
                                accounts[picked.payer as int].address,
                                init_id,
                            ),
                            subscription_authority: accounts[1].address,
                            mint,
            recipient: data.recipient,
            max_amount: data.max_amount,
            expiry_ts: data.expiry_ts,
                        },
                        picked.payer as int,
                    ),
                ),
            },
        }
    }
}

/// An up-to delegation is accepted for creation exactly when it has a
/// positive ceiling, a recipient other than the zero address, and either
/// never expires or expires no more than the allowed drift (two minutes)
/// before `current_time`.
pub proof fn law_up_to_creation_is_live(data: CreateUpToDelegationData, current_time: i64)
    ensures
        data.validation(current_time) is Ok <==> (data.max_amount > 0 && data.recipient@ != zero_address() && (
        data.expiry_ts == 0 || data.expiry_ts + 120 >= current_time)),
{
}

/// Decides the instruction: validates the payload, checks the accounts and
/// the delegation PDA, and returns the delegation to write once the
/// account is created, with the index of the account that funds it.
pub fn process(accounts: &[AccountInfo], data: &CreateUpToDelegationData, current_ts: i64) -> (r: Result<
    (UpToDelegation, usize),
    SubscriptionsError,
>)
    ensures
        match r {
            Ok((d, i)) => create_verdict(accounts@, *data, current_ts) == Ok::<(UpToDelegation, int), SubscriptionsError>(
                (d, i as int),
            ),
            Err(e) => create_verdict(accounts@, *data, current_ts) == Err::<(UpToDelegation, int), SubscriptionsError>(e),
        },
{
    data.validate(current_ts)?;
    let picked = CreateDelegationAccounts::try_from(accounts)?;
    let (bump, init_id, mint) = create_delegation_account(
        &accounts[picked.delegator],
        &accounts[picked.subscription_authority],
        &accounts[picked.delegation_account],
        &accounts[picked.delegatee],
        data.nonce,
        Some(data.expected_subscription_authority_init_id),
    )?;
    let d = data.new_delegation(
        bump,
        &accounts[picked.delegator].address,
        &accounts[picked.delegatee].address,
        &accounts[picked.payer].address,
        init_id,
        &accounts[picked.subscription_authority].address,
        &mint,
    );
    Ok((d, picked.payer))
}

} // verus!

