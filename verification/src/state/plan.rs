use vstd::prelude::*;

use crate::address::{zero_address, Address};
use crate::codec::{
    addresses_bytes, le_i64, le_u64, lemma_addresses_bytes_injective, lemma_addresses_bytes_len,
    lemma_le_i64_injective, lemma_le_len, lemma_le_u64_injective, read_address, read_addresses,
    read_i64, read_u64, read_uri, write_address, write_addresses, write_i64, write_u64, write_uri,
};
use crate::constants::SECS_PER_HOUR;
use crate::errors::SubscriptionsError;
use crate::state::common::AccountDiscriminator;

verus! {

/// Billing terms of a plan, snapshotted into each subscription.
#[derive(Clone, Copy, Debug, PartialEq, Eq, Structural)]
pub struct PlanTerms {
    /// Maximum token amount that can be pulled per billing period.
    pub amount: u64,
    /// Billing period length in hours.
    pub period_hours: u64,
    /// Unix timestamp when the plan was created on-chain.
    pub created_at: i64,
}

impl PlanTerms {
    /// Serialized size in bytes.
    pub const LEN: usize = 24;

    /// The terms' bytes.
    pub open spec fn encode(&self) -> Seq<u8> {
        le_u64(self.amount) + le_u64(self.period_hours) + le_i64(self.created_at)
    }

    /// The encoding is `LEN` bytes long.
    pub proof fn lemma_encode_len(&self)
        ensures
            self.encode().len() == Self::LEN,
    {
        lemma_le_len(self.amount, self.created_at);
        lemma_le_len(self.period_hours, 0);
    }

    /// Two terms with the same bytes are equal.
    pub proof fn lemma_encode_injective(a: Self, b: Self)
        requires
            a.encode() == b.encode(),
        ensures
            a == b,
    {
        a.lemma_encode_len();
        b.lemma_encode_len();
        lemma_le_len(a.amount, a.created_at);
        lemma_le_len(a.period_hours, 0);
        lemma_le_len(b.amount, b.created_at);
        lemma_le_len(b.period_hours, 0);
        let s = a.encode();
        assert(le_u64(a.amount) =~= s.subrange(0, 8));
        assert(le_u64(b.amount) =~= s.subrange(0, 8));
        assert(le_u64(a.period_hours) =~= s.subrange(8, 16));
        assert(le_u64(b.period_hours) =~= s.subrange(8, 16));
        assert(le_i64(a.created_at) =~= s.subrange(16, 24));
        assert(le_i64(b.created_at) =~= s.subrange(16, 24));
        lemma_le_u64_injective(a.amount, b.amount);
        lemma_le_u64_injective(a.period_hours, b.period_hours);
        lemma_le_i64_injective(a.created_at, b.created_at);
    }

    /// Decodes the terms at `off`.
    pub fn parse_at(data: &[u8], off: usize) -> (t: Self)
        requires
            off + Self::LEN <= data@.len(),
        ensures
            t.encode() == data@.subrange(off as int, off + Self::LEN),
    {
        let _n = data.len();
        let t = PlanTerms {
            amount: read_u64(data, off),
            period_hours: read_u64(data, off + 8),
            created_at: read_i64(data, off + 16),
        };
        assert(t.encode() =~= data@.subrange(off as int, off + Self::LEN));
        t
    }

    /// Appends the terms' bytes to `out`.
    pub fn write(&self, out: &mut Vec<u8>)
        ensures
            final(out)@ == old(out)@ + self.encode(),
    {
        write_u64(out, self.amount);
        write_u64(out, self.period_hours);
        write_i64(out, self.created_at);
        assert(out@ =~= old(out)@ + self.encode());
    }

    /// The period length in seconds, `period_hours * 3600`.
    pub fn period_length_secs(&self) -> (s: u64)
        requires
            self.period_hours * SECS_PER_HOUR <= u64::MAX,
        ensures
            s == self.period_hours * SECS_PER_HOUR,
    {
        self.period_hours * SECS_PER_HOUR
    }
}

/// Configuration of a plan, supplied when creating it and embedded in the plan account.
#[derive(Clone, Copy, Debug, PartialEq, Eq)]
pub struct PlanData {
    /// Merchant-chosen identifier of the plan, unique per owner.
    pub plan_id: u64,
    /// Token mint that subscriptions under the plan operate on.
    pub mint: Address,
    /// Billing terms.
    pub terms: PlanTerms,
    /// Unix timestamp after which the plan expires; `0` means no end.
    pub end_ts: i64,
    /// Whitelisted destination wallets; all-zero entries are unused.
    pub destinations: [Address; 4],
    /// Addresses allowed to pull besides the owner; all-zero entries are unused.
    pub pullers: [Address; 4],
    /// UTF-8 metadata URI, zero padded.
    pub metadata_uri: [u8; 128],
}

impl PlanData {
    /// Serialized size in bytes.
    pub const LEN: usize = 456;

    /// The record's bytes.
    pub open spec fn encode(&self) -> Seq<u8> {
        le_u64(self.plan_id) + self.mint@ + self.terms.encode() + le_i64(self.end_ts) + addresses_bytes(self.destinations) + addresses_bytes(self.pullers) + self.metadata_uri@
    }

    /// The encoding is `LEN` bytes long.
    pub proof fn lemma_encode_len(&self)
        ensures
            self.encode().len() == Self::LEN,
    {
        lemma_le_len(self.plan_id, 0);
        self.terms.lemma_encode_len();
        lemma_le_len(0, self.end_ts);
        lemma_addresses_bytes_len(self.destinations);
        lemma_addresses_bytes_len(self.pullers);
    }

    /// Two records with the same bytes are equal.
    pub proof fn lemma_encode_injective(a: Self, b: Self)
        requires
            a.encode() == b.encode(),
        ensures
            a == b,
    {
        lemma_le_len(a.plan_id, 0);
        a.terms.lemma_encode_len();
        lemma_le_len(0, a.end_ts);
        lemma_addresses_bytes_len(a.destinations);
        lemma_addresses_bytes_len(a.pullers);
        lemma_le_len(b.plan_id, 0);
        b.terms.lemma_encode_len();
        lemma_le_len(0, b.end_ts);
        lemma_addresses_bytes_len(b.destinations);
        lemma_addresses_bytes_len(b.pullers);
        let s = a.encode();
        assert(le_u64(a.plan_id) =~= s.subrange(0, 8));
        assert(le_u64(b.plan_id) =~= s.subrange(0, 8));
        lemma_le_u64_injective(a.plan_id, b.plan_id);
        assert(a.mint@ =~= s.subrange(8, 40));
        assert(b.mint@ =~= s.subrange(8, 40));
        assert(a.mint.bytes == b.mint.bytes);
        assert(a.terms.encode() =~= s.subrange(40, 64));
        assert(b.terms.encode() =~= s.subrange(40, 64));
        PlanTerms::lemma_encode_injective(a.terms, b.terms);
        assert(le_i64(a.end_ts) =~= s.subrange(64, 72));
        assert(le_i64(b.end_ts) =~= s.subrange(64, 72));
        lemma_le_i64_injective(a.end_ts, b.end_ts);
        assert(addresses_bytes(a.destinations) =~= s.subrange(72, 200));
        assert(addresses_bytes(b.destinations) =~= s.subrange(72, 200));
        lemma_addresses_bytes_injective(a.destinations, b.destinations);
        assert(addresses_bytes(a.pullers) =~= s.subrange(200, 328));
        assert(addresses_bytes(b.pullers) =~= s.subrange(200, 328));
        lemma_addresses_bytes_injective(a.pullers, b.pullers);
        assert(a.metadata_uri@ =~= s.subrange(328, 456));
        assert(b.metadata_uri@ =~= s.subrange(328, 456));
        assert(a.metadata_uri == b.metadata_uri);
    }

    /// Decodes the record at `off`.
    pub fn parse_at(data: &[u8], off: usize) -> (d: Self)
        requires
            off + Self::LEN <= data@.len(),
        ensures
            d.encode() == data@.subrange(off as int, off + Self::LEN),
    {
        let _n = data.len();
        let d = PlanData {
            plan_id: read_u64(data, off + 0),
            mint: read_address(data, off + 8),
            terms: PlanTerms::parse_at(data, off + 40),
            end_ts: read_i64(data, off + 64),
            destinations: read_addresses(data, off + 72),
            pullers: read_addresses(data, off + 200),
            metadata_uri: read_uri(data, off + 328),
        };
        assert(d.encode() =~= data@.subrange(off as int, off + Self::LEN));
        d
    }

    /// Appends the record's bytes to `v`.
    pub fn write(&self, v: &mut Vec<u8>)
        ensures
            final(v)@ == old(v)@ + self.encode(),
    {
        write_u64(v, self.plan_id);
        write_address(v, &self.mint);
        self.terms.write(v);
        write_i64(v, self.end_ts);
        write_addresses(v, &self.destinations);
        write_addresses(v, &self.pullers);
        write_uri(v, &self.metadata_uri);
        assert(v@ =~= old(v)@ + self.encode());
    }
}

/// A merchant-defined subscription plan.
#[derive(Clone, Copy, Debug, PartialEq, Eq)]
pub struct Plan {
    /// Account kind byte.
    pub discriminator: u8,
    /// The merchant wallet that owns and administers the plan.
    pub owner: Address,
    /// PDA bump seed.
    pub bump: u8,
    /// Plan lifecycle status byte (see `PlanStatus`).
    pub status: u8,
    /// The plan's configuration.
    pub data: PlanData,
}

impl Plan {
    /// Serialized size in bytes.
    pub const LEN: usize = 491;

    /// The record's bytes.
    pub open spec fn encode(&self) -> Seq<u8> {
        seq![self.discriminator] + self.owner@ + seq![self.bump] + seq![self.status] + self.data.encode()
    }

    /// The encoding is `LEN` bytes long.
    pub proof fn lemma_encode_len(&self)
        ensures
            self.encode().len() == Self::LEN,
    {
        self.data.lemma_encode_len();
    }

    /// Two records with the same bytes are equal.
    pub proof fn lemma_encode_injective(a: Self, b: Self)
        requires
            a.encode() == b.encode(),
        ensures
            a == b,
    {
        a.data.lemma_encode_len();
        b.data.lemma_encode_len();
        let s = a.encode();
        assert(s[0] == a.discriminator && s[0] == b.discriminator);
        assert(a.owner@ =~= s.subrange(1, 33));
        assert(b.owner@ =~= s.subrange(1, 33));
        assert(a.owner.bytes == b.owner.bytes);
        assert(s[33] == a.bump && s[33] == b.bump);
        assert(s[34] == a.status && s[34] == b.status);
        assert(a.data.encode() =~= s.subrange(35, 491));
        assert(b.data.encode() =~= s.subrange(35, 491));
        PlanData::lemma_encode_injective(a.data, b.data);
    }

    /// Decodes the first `LEN` bytes of `data`.
    pub fn parse(data: &[u8]) -> (d: Self)
        requires
            data@.len() >= Self::LEN,
        ensures
            d.encode() == data@.subrange(0, Self::LEN as int),
    {
        let d = Plan {
            discriminator: data[0],
            owner: read_address(data, 1),
            bump: data[33],
            status: data[34],
            data: PlanData::parse_at(data, 35),
        };
        assert(d.encode() =~= data@.subrange(0, Self::LEN as int));
        d
    }

    /// Deserializes account data of exactly `LEN` bytes marked as [`AccountDiscriminator::Plan`].
    pub fn load(bytes: &[u8]) -> (r: Result<Self, SubscriptionsError>)
        ensures
            match r {
                Ok(d) => d.encode() == bytes@,
                Err(e) => e == (if bytes@.len() != Self::LEN {
                    SubscriptionsError::InvalidAccountData
                } else {
                    SubscriptionsError::InvalidAccountDiscriminator
                }),
            },
            r is Ok <==> (bytes@.len() == Self::LEN && bytes@[0]
                == AccountDiscriminator::Plan.byte()),
    {
        if bytes.len() != Self::LEN {
            return Err(SubscriptionsError::InvalidAccountData);
        }
        if bytes[0] != AccountDiscriminator::Plan.as_u8() {
            return Err(SubscriptionsError::InvalidAccountDiscriminator);
        }
        let d = Self::parse(bytes);
        assert(bytes@.subrange(0, Self::LEN as int) =~= bytes@);
        Ok(d)
    }

    /// Serializes the record.
    pub fn to_bytes(&self) -> (v: Vec<u8>)
        ensures
            v@ == self.encode(),
    {
        let mut v: Vec<u8> = Vec::new();
        v.push(self.discriminator);
        write_address(&mut v, &self.owner);
        v.push(self.bump);
        v.push(self.status);
        self.data.write(&mut v);
        assert(v@ =~= self.encode());
        v
    }

    /// Serializing a well-marked account and loading the bytes back gives the same account:
    /// the bytes have the accepted length and kind, and no other account has them.
    pub proof fn law_bytes_roundtrip(d: Self)
        requires
            d.discriminator == AccountDiscriminator::Plan.byte(),
        ensures
            d.encode().len() == Self::LEN,
            d.encode()[0] == AccountDiscriminator::Plan.byte(),
            forall|e: Self| #[trigger] e.encode() == d.encode() ==> e == d,
    {
        d.lemma_encode_len();
        assert forall|e: Self| #[trigger] e.encode() == d.encode() implies e == d by {
            Self::lemma_encode_injective(e, d);
        }
    }
}

impl Plan {
    /// Whether `caller` may pull for this plan: the owner, or a non-zero
    /// entry of the puller whitelist.
    pub open spec fn puller_allowed(&self, caller: Seq<u8>) -> bool {
        caller == self.owner@ || exists|i: int|
            0 <= i < 4 && (#[trigger] self.data.pullers[i])@ != zero_address()
                && self.data.pullers[i]@ == caller
    }

    /// Whether the destination whitelist has any non-zero entry.
    pub open spec fn has_configured_destination(&self) -> bool {
        exists|i: int| 0 <= i < 4 && (#[trigger] self.data.destinations[i])@ != zero_address()
    }

    /// Whether tokens may go to a receiver owned by `receiver_owner`: any
    /// receiver when no destination is configured, else a non-zero whitelisted one.
    pub open spec fn destination_allowed(&self, receiver_owner: Seq<u8>) -> bool {
        !self.has_configured_destination() || exists|i: int|
            0 <= i < 4 && (#[trigger] self.data.destinations[i])@ != zero_address()
                && self.data.destinations[i]@ == receiver_owner
    }

    /// Checks that `caller` is authorized to pull transfers for this plan.
    pub fn can_pull(&self, caller: &Address) -> (r: Result<(), SubscriptionsError>)
        ensures
            r == (if self.puller_allowed(caller@) {
                Ok(())
            } else {
                Err(SubscriptionsError::Unauthorized)
            }),
    {
        if caller.equals(&self.owner) {
            return Ok(());
        }
        let mut i: usize = 0;
        while i < 4
            invariant
                i <= 4,
                caller@ != self.owner@,
                forall|j: int|
                    0 <= j < i ==> !((#[trigger] self.data.pullers[j])@ != zero_address()
                        && self.data.pullers[j]@ == caller@),
            decreases 4 - i,
        {
            let p = self.data.pullers[i];
            if !p.is_zero() && p.equals(caller) {
                assert(self.data.pullers[i as int]@ == caller@);
                return Ok(());
            }
            i = i + 1;
        }
        Err(SubscriptionsError::Unauthorized)
    }

    /// Validates that `receiver_owner` is an allowed transfer destination.
    pub fn check_destination(&self, receiver_owner: &Address) -> (r: Result<(), SubscriptionsError>)
        ensures
            r == (if self.destination_allowed(receiver_owner@) {
                Ok(())
            } else {
                Err(SubscriptionsError::UnauthorizedDestination)
            }),
    {
        let mut has_configured = false;
        let mut i: usize = 0;
        while i < 4
            invariant
                i <= 4,
                has_configured == exists|j: int|
                    0 <= j < i && (#[trigger] self.data.destinations[j])@ != zero_address(),
                forall|j: int|
                    0 <= j < i ==> !((#[trigger] self.data.destinations[j])@ != zero_address()
                        && self.data.destinations[j]@ == receiver_owner@),
            decreases 4 - i,
        {
            let d = self.data.destinations[i];
            if !d.is_zero() {
                if d.equals(receiver_owner) {
                    assert(self.data.destinations[i as int]@ == receiver_owner@);
                    return Ok(());
                }
                assert(self.data.destinations[i as int]@ != zero_address());
                has_configured = true;
            }
            i = i + 1;
        }
        if has_configured {
            return Err(SubscriptionsError::UnauthorizedDestination);
        }
        Ok(())
    }

    /// Zero-padded whitelist slots never authorize anything: once any
    /// destination is configured the zero address is not an allowed
    /// destination, and the zero address may pull only for a zero owner.
    pub proof fn law_zero_slots_authorize_nothing(&self)
        ensures
            self.has_configured_destination() ==> !self.destination_allowed(zero_address()),
            self.owner@ != zero_address() ==> !self.puller_allowed(zero_address()),
    {
    }
}

impl Plan {
    /// What loading `bytes` gives: the one record they encode, or why they
    /// are refused.
    pub open spec fn load_verdict(bytes: Seq<u8>) -> Result<Self, SubscriptionsError> {
        if bytes.len() != Self::LEN {
            Err(SubscriptionsError::InvalidAccountData)
        } else if bytes[0] != AccountDiscriminator::Plan.byte() {
            Err(SubscriptionsError::InvalidAccountDiscriminator)
        } else {
            Ok(choose|d: Self| d.encode() == bytes)
        }
    }

    /// A successful [`Self::load`] agrees with [`Self::load_verdict`], and so
    /// does a refused one.
    pub proof fn lemma_load_verdict(bytes: Seq<u8>, r: Result<Self, SubscriptionsError>)
        requires
            match r {
                Ok(d) => d.encode() == bytes,
                Err(e) => e == (if bytes.len() != Self::LEN {
                    SubscriptionsError::InvalidAccountData
                } else {
                    SubscriptionsError::InvalidAccountDiscriminator
                }),
            },
            r is Ok <==> (bytes.len() == Self::LEN && bytes[0] == AccountDiscriminator::Plan.byte()),
        ensures
            Self::load_verdict(bytes) == r,
    {
        if let Ok(d) = r {
            let c = choose|c: Self| c.encode() == bytes;
            assert(d.encode() == bytes);
            Self::lemma_encode_injective(c, d);
        }
    }
}

impl PlanData {
    /// Deserializes instruction data of exactly `LEN` bytes.
    pub fn load(bytes: &[u8]) -> (r: Result<Self, SubscriptionsError>)
        ensures
            match r {
                Ok(d) => d.encode() == bytes@,
                Err(e) => e == SubscriptionsError::InvalidInstructionData,
            },
            r is Ok <==> bytes@.len() == Self::LEN,
    {
        if bytes.len() != Self::LEN {
            return Err(SubscriptionsError::InvalidInstructionData);
        }
        let d = Self::parse_at(bytes, 0);
        assert(bytes@.subrange(0, Self::LEN as int) =~= bytes@);
        Ok(d)
    }
}

} // verus!


