use vstd::prelude::*;

use crate::address::Address;
use crate::codec::{copy_zero_padded, le_i64, le_u64, lemma_le_i64_injective, lemma_le_len, lemma_le_u64_injective, read_address, read_i64, read_u64, write_address, write_i64, write_u64, zero_padded};
use crate::errors::SubscriptionsError;
use crate::state::common::{check_min_account_size, AccountDiscriminator};
use crate::state::header::Header;

verus! {

/// A recurring delegation: each period the delegatee may transfer up to
/// `amount_per_period`; skipped periods do not accumulate allowance.
#[derive(Clone, Copy, Debug, PartialEq, Eq)]
pub struct RecurringDelegation {
    /// Common delegation header.
    pub header: Header,
    /// The SubscriptionAuthority PDA used when this delegation was created.
    pub subscription_authority: Address,
    /// The token mint this delegation authorizes.
    pub mint: Address,
    /// Unix timestamp of the start of the current period.
    pub current_period_start_ts: i64,
    /// Length of each period in seconds.
    pub period_length_s: u64,
    /// Unix timestamp after which the delegation is no longer valid; `0` means none.
    pub expiry_ts: i64,
    /// Maximum token amount transferable per period.
    pub amount_per_period: u64,
    /// Token amount already transferred in the current period.
    pub amount_pulled_in_period: u64,
}

impl RecurringDelegation {
    /// Serialized size in bytes.
    pub const LEN: usize = 211;

    /// First-version length: the frozen minimum accepted on revoke.
    pub const V1_LEN: usize = 211;

    /// The record's bytes.
    pub open spec fn encode(&self) -> Seq<u8> {
        self.header.encode() + self.subscription_authority@ + self.mint@ + le_i64(self.current_period_start_ts) + le_u64(self.period_length_s) + le_i64(self.expiry_ts) + le_u64(self.amount_per_period) + le_u64(self.amount_pulled_in_period)
    }

    /// The encoding is `LEN` bytes long.
    pub proof fn lemma_encode_len(&self)
        ensures
            self.encode().len() == Self::LEN,
    {
        self.header.lemma_encode_len();
        lemma_le_len(0, self.current_period_start_ts);
        lemma_le_len(self.period_length_s, 0);
        lemma_le_len(0, self.expiry_ts);
        lemma_le_len(self.amount_per_period, 0);
        lemma_le_len(self.amount_pulled_in_period, 0);
    }

    /// Two records with the same bytes are equal.
    pub proof fn lemma_encode_injective(a: Self, b: Self)
        requires
            a.encode() == b.encode(),
        ensures
            a == b,
    {
        a.header.lemma_encode_len();
        lemma_le_len(0, a.current_period_start_ts);
        lemma_le_len(a.period_length_s, 0);
        lemma_le_len(0, a.expiry_ts);
        lemma_le_len(a.amount_per_period, 0);
        lemma_le_len(a.amount_pulled_in_period, 0);
        b.header.lemma_encode_len();
        lemma_le_len(0, b.current_period_start_ts);
        lemma_le_len(b.period_length_s, 0);
        lemma_le_len(0, b.expiry_ts);
        lemma_le_len(b.amount_per_period, 0);
        lemma_le_len(b.amount_pulled_in_period, 0);
        let s = a.encode();
        assert(a.header.encode() =~= s.subrange(0, 107));
        assert(b.header.encode() =~= s.subrange(0, 107));
        Header::lemma_encode_injective(a.header, b.header);
        assert(a.subscription_authority@ =~= s.subrange(107, 139));
        assert(b.subscription_authority@ =~= s.subrange(107, 139));
        assert(a.subscription_authority.bytes == b.subscription_authority.bytes);
        assert(a.mint@ =~= s.subrange(139, 171));
        assert(b.mint@ =~= s.subrange(139, 171));
        assert(a.mint.bytes == b.mint.bytes);
        assert(le_i64(a.current_period_start_ts) =~= s.subrange(171, 179));
        assert(le_i64(b.current_period_start_ts) =~= s.subrange(171, 179));
        lemma_le_i64_injective(a.current_period_start_ts, b.current_period_start_ts);
        assert(le_u64(a.period_length_s) =~= s.subrange(179, 187));
        assert(le_u64(b.period_length_s) =~= s.subrange(179, 187));
        lemma_le_u64_injective(a.period_length_s, b.period_length_s);
        assert(le_i64(a.expiry_ts) =~= s.subrange(187, 195));
        assert(le_i64(b.expiry_ts) =~= s.subrange(187, 195));
        lemma_le_i64_injective(a.expiry_ts, b.expiry_ts);
        assert(le_u64(a.amount_per_period) =~= s.subrange(195, 203));
        assert(le_u64(b.amount_per_period) =~= s.subrange(195, 203));
        lemma_le_u64_injective(a.amount_per_period, b.amount_per_period);
        assert(le_u64(a.amount_pulled_in_period) =~= s.subrange(203, 211));
        assert(le_u64(b.amount_pulled_in_period) =~= s.subrange(203, 211));
        lemma_le_u64_injective(a.amount_pulled_in_period, b.amount_pulled_in_period);
    }

    /// Decodes the first `LEN` bytes of `data`.
    pub fn parse(data: &[u8]) -> (d: Self)
        requires
            data@.len() >= Self::LEN,
        ensures
            d.encode() == data@.subrange(0, Self::LEN as int),
    {
        let d = RecurringDelegation {
            header: Header::parse(data),
            subscription_authority: read_address(data, 107),
            mint: read_address(data, 139),
            current_period_start_ts: read_i64(data, 171),
            period_length_s: read_u64(data, 179),
            expiry_ts: read_i64(data, 187),
            amount_per_period: read_u64(data, 195),
            amount_pulled_in_period: read_u64(data, 203),
        };
        assert(d.encode() =~= data@.subrange(0, Self::LEN as int));
        d
    }

    /// Deserializes account data of exactly `LEN` bytes marked as [`AccountDiscriminator::RecurringDelegation`].
    pub fn load(bytes: &[u8]) -> (r: Result<Self, SubscriptionsError>)
        ensures
            match r {
                Ok(d) => d.encode() == bytes@,
                Err(e) => e == (if bytes@.len() != Self::LEN {
                    SubscriptionsError::InvalidAccountData
                } else {
                    SubscriptionsError::InvalidAccountDiscriminator
                }),
            },
            r is Ok <==> (bytes@.len() == Self::LEN && bytes@[0]
                == AccountDiscriminator::RecurringDelegation.byte()),
    {
        if bytes.len() != Self::LEN {
            return Err(SubscriptionsError::InvalidAccountData);
        }
        if bytes[0] != AccountDiscriminator::RecurringDelegation.as_u8() {
            return Err(SubscriptionsError::InvalidAccountDiscriminator);
        }
        let d = Self::parse(bytes);
        assert(bytes@.subrange(0, Self::LEN as int) =~= bytes@);
        Ok(d)
    }

    /// Version-agnostic load for revoke and close: accepts any account at
    /// least `V1_LEN` long carrying this kind, reading bytes past the end as zero.
    pub fn load_for_revoke(bytes: &[u8]) -> (r: Result<Self, SubscriptionsError>)
        ensures
            match r {
                Ok(d) => d.encode() == zero_padded(bytes@, Self::LEN as int),
                Err(e) => e == (if bytes@.len() < Self::V1_LEN {
                    SubscriptionsError::InvalidAccountData
                } else {
                    SubscriptionsError::InvalidAccountDiscriminator
                }),
            },
            r is Ok <==> (bytes@.len() >= Self::V1_LEN && bytes@[0]
                == AccountDiscriminator::RecurringDelegation.byte()),
    {
        check_min_account_size(bytes.len(), Self::V1_LEN)?;
        if bytes[0] != AccountDiscriminator::RecurringDelegation.as_u8() {
            return Err(SubscriptionsError::InvalidAccountDiscriminator);
        }
        let buf = copy_zero_padded(bytes, Self::LEN);
        let d = Self::parse(buf.as_slice());
        assert(buf@.subrange(0, Self::LEN as int) =~= buf@);
        Ok(d)
    }

    /// Serializes the record.
    pub fn to_bytes(&self) -> (v: Vec<u8>)
        ensures
            v@ == self.encode(),
    {
        let mut v: Vec<u8> = Vec::new();
        self.header.write(&mut v);
        write_address(&mut v, &self.subscription_authority);
        write_address(&mut v, &self.mint);
        write_i64(&mut v, self.current_period_start_ts);
        write_u64(&mut v, self.period_length_s);
        write_i64(&mut v, self.expiry_ts);
        write_u64(&mut v, self.amount_per_period);
        write_u64(&mut v, self.amount_pulled_in_period);
        assert(v@ =~= self.encode());
        v
    }

    /// Serializing a well-marked account and loading the bytes back gives the same account:
    /// the bytes have the accepted length and kind, and no other account has them.
    pub proof fn law_bytes_roundtrip(d: Self)
        requires
            d.header.discriminator == AccountDiscriminator::RecurringDelegation.byte(),
        ensures
            d.encode().len() == Self::LEN,
            d.encode()[0] == AccountDiscriminator::RecurringDelegation.byte(),
            forall|e: Self| #[trigger] e.encode() == d.encode() ==> e == d,
    {
        d.lemma_encode_len();
        d.header.lemma_encode_len();
        assert(d.encode()[0] == d.header.encode()[0]);
        assert forall|e: Self| #[trigger] e.encode() == d.encode() implies e == d by {
            Self::lemma_encode_injective(e, d);
        }
    }
}

impl RecurringDelegation {
    /// What [`Self::load_for_revoke`] gives for `bytes`: the one record
    /// their zero-padded first `LEN` bytes encode, or why they are refused.
    pub open spec fn revoke_load_verdict(bytes: Seq<u8>) -> Result<Self, SubscriptionsError> {
        if bytes.len() < Self::V1_LEN {
            Err(SubscriptionsError::InvalidAccountData)
        } else if bytes[0] != AccountDiscriminator::RecurringDelegation.byte() {
            Err(SubscriptionsError::InvalidAccountDiscriminator)
        } else {
            Ok(choose|d: Self| d.encode() == zero_padded(bytes, Self::LEN as int))
        }
    }

    /// A result of [`Self::load_for_revoke`] agrees with
    /// [`Self::revoke_load_verdict`].
    pub proof fn lemma_revoke_load_verdict(bytes: Seq<u8>, r: Result<Self, SubscriptionsError>)
        requires
            match r {
                Ok(d) => d.encode() == zero_padded(bytes, Self::LEN as int),
                Err(e) => e == (if bytes.len() < Self::V1_LEN {
                    SubscriptionsError::InvalidAccountData
                } else {
                    SubscriptionsError::InvalidAccountDiscriminator
                }),
            },
            r is Ok <==> (bytes.len() >= Self::V1_LEN && bytes[0] == AccountDiscriminator::RecurringDelegation.byte()),
        ensures
            Self::revoke_load_verdict(bytes) == r,
    {
        if let Ok(d) = r {
            let c = choose|c: Self| c.encode() == zero_padded(bytes, Self::LEN as int);
            assert(d.encode() == zero_padded(bytes, Self::LEN as int));
            Self::lemma_encode_injective(c, d);
        }
    }
}

impl RecurringDelegation {
    /// What loading `bytes` gives: the one record they encode, or why they
    /// are refused.
    pub open spec fn load_verdict(bytes: Seq<u8>) -> Result<Self, SubscriptionsError> {
        if bytes.len() != Self::LEN {
            Err(SubscriptionsError::InvalidAccountData)
        } else if bytes[0] != AccountDiscriminator::RecurringDelegation.byte() {
            Err(SubscriptionsError::InvalidAccountDiscriminator)
        } else {
            Ok(choose|d: Self| d.encode() == bytes)
        }
    }

    /// A result of [`Self::load`] agrees with [`Self::load_verdict`].
    pub proof fn lemma_load_verdict(bytes: Seq<u8>, r: Result<Self, SubscriptionsError>)
        requires
            match r {
                Ok(d) => d.encode() == bytes,
                Err(e) => e == (if bytes.len() != Self::LEN {
                    SubscriptionsError::InvalidAccountData
                } else {
                    SubscriptionsError::InvalidAccountDiscriminator
                }),
            },
            r is Ok <==> (bytes.len() == Self::LEN && bytes[0] == AccountDiscriminator::RecurringDelegation.byte()),
        ensures
            Self::load_verdict(bytes) == r,
    {
        if let Ok(d) = r {
            let c = choose|c: Self| c.encode() == bytes;
            Self::lemma_encode_injective(c, d);
        }
    }
}

} // verus!


