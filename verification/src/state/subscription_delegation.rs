use vstd::prelude::*;

use crate::address::Address;
use crate::codec::{copy_zero_padded, le_i64, le_u64, lemma_le_i64_injective, lemma_le_len, lemma_le_u64_injective, read_i64, read_u64, write_i64, write_u64, zero_padded};
use crate::errors::SubscriptionsError;
use crate::state::common::{check_min_account_size, AccountDiscriminator};
use crate::state::header::Header;
use crate::state::plan::PlanTerms;

verus! {

/// A subscriber's pull authorization under a plan, with the plan terms
/// snapshotted at subscribe time. The header's delegatee is the plan.
#[derive(Clone, Copy, Debug, PartialEq, Eq)]
pub struct SubscriptionDelegation {
    /// Common delegation header.
    pub header: Header,
    /// Plan terms snapshotted at subscribe time.
    pub terms: PlanTerms,
    /// Token amount already pulled in the current billing period.
    pub amount_pulled_in_period: u64,
    /// Unix timestamp of the start of the current billing period.
    pub current_period_start_ts: i64,
    /// End of the paid-through period after cancellation; `0` while active.
    pub expires_at_ts: i64,
}

impl SubscriptionDelegation {
    /// Serialized size in bytes.
    pub const LEN: usize = 155;

    /// First-version length: the frozen minimum accepted on revoke.
    pub const V1_LEN: usize = 155;

    /// The record's bytes.
    pub open spec fn encode(&self) -> Seq<u8> {
        self.header.encode() + self.terms.encode() + le_u64(self.amount_pulled_in_period) + le_i64(self.current_period_start_ts) + le_i64(self.expires_at_ts)
    }

    /// The encoding is `LEN` bytes long.
    pub proof fn lemma_encode_len(&self)
        ensures
            self.encode().len() == Self::LEN,
    {
        self.header.lemma_encode_len();
        self.terms.lemma_encode_len();
        lemma_le_len(self.amount_pulled_in_period, 0);
        lemma_le_len(0, self.current_period_start_ts);
        lemma_le_len(0, self.expires_at_ts);
    }

    /// Two records with the same bytes are equal.
    pub proof fn lemma_encode_injective(a: Self, b: Self)
        requires
            a.encode() == b.encode(),
        ensures
            a == b,
    {
        a.header.lemma_encode_len();
        a.terms.lemma_encode_len();
        lemma_le_len(a.amount_pulled_in_period, 0);
        lemma_le_len(0, a.current_period_start_ts);
        lemma_le_len(0, a.expires_at_ts);
        b.header.lemma_encode_len();
        b.terms.lemma_encode_len();
        lemma_le_len(b.amount_pulled_in_period, 0);
        lemma_le_len(0, b.current_period_start_ts);
        lemma_le_len(0, b.expires_at_ts);
        let s = a.encode();
        assert(a.header.encode() =~= s.subrange(0, 107));
        assert(b.header.encode() =~= s.subrange(0, 107));
        Header::lemma_encode_injective(a.header, b.header);
        assert(a.terms.encode() =~= s.subrange(107, 131));
        assert(b.terms.encode() =~= s.subrange(107, 131));
        PlanTerms::lemma_encode_injective(a.terms, b.terms);
        assert(le_u64(a.amount_pulled_in_period) =~= s.subrange(131, 139));
        assert(le_u64(b.amount_pulled_in_period) =~= s.subrange(131, 139));
        lemma_le_u64_injective(a.amount_pulled_in_period, b.amount_pulled_in_period);
        assert(le_i64(a.current_period_start_ts) =~= s.subrange(139, 147));
        assert(le_i64(b.current_period_start_ts) =~= s.subrange(139, 147));
        lemma_le_i64_injective(a.current_period_start_ts, b.current_period_start_ts);
        assert(le_i64(a.expires_at_ts) =~= s.subrange(147, 155));
        assert(le_i64(b.expires_at_ts) =~= s.subrange(147, 155));
        lemma_le_i64_injective(a.expires_at_ts, b.expires_at_ts);
    }

    /// Decodes the first `LEN` bytes of `data`.
    pub fn parse(data: &[u8]) -> (d: Self)
        requires
            data@.len() >= Self::LEN,
        ensures
            d.encode() == data@.subrange(0, Self::LEN as int),
    {
        let d = SubscriptionDelegation {
            header: Header::parse(data),
            terms: PlanTerms::parse_at(data, 107),
            amount_pulled_in_period: read_u64(data, 131),
            current_period_start_ts: read_i64(data, 139),
            expires_at_ts: read_i64(data, 147),
        };
        assert(d.encode() =~= data@.subrange(0, Self::LEN as int));
        d
    }

    /// Deserializes account data of exactly `LEN` bytes marked as [`AccountDiscriminator::SubscriptionDelegation`].
    pub fn load(bytes: &[u8]) -> (r: Result<Self, SubscriptionsError>)
        ensures
            match r {
                Ok(d) => d.encode() == bytes@,
                Err(e) => e == (if bytes@.len() != Self::LEN {
                    SubscriptionsError::InvalidAccountData
                } else {
                    SubscriptionsError::InvalidAccountDiscriminator
                }),
            },
            r is Ok <==> (bytes@.len() == Self::LEN && bytes@[0]
                == AccountDiscriminator::SubscriptionDelegation.byte()),
    {
        if bytes.len() != Self::LEN {
            return Err(SubscriptionsError::InvalidAccountData);
        }
        if bytes[0] != AccountDiscriminator::SubscriptionDelegation.as_u8() {
            return Err(SubscriptionsError::InvalidAccountDiscriminator);
        }
        let d = Self::parse(bytes);
        assert(bytes@.subrange(0, Self::LEN as int) =~= bytes@);
        Ok(d)
    }

    /// Version-agnostic load for revoke and close: accepts any account at
    /// least `V1_LEN` long carrying this kind, reading bytes past the end as zero.
    pub fn load_for_revoke(bytes: &[u8]) -> (r: Result<Self, SubscriptionsError>)
        ensures
            match r {
                Ok(d) => d.encode() == zero_padded(bytes@, Self::LEN as int),
                Err(e) => e == (if bytes@.len() < Self::V1_LEN {
                    SubscriptionsError::InvalidAccountData
                } else {
                    SubscriptionsError::InvalidAccountDiscriminator
                }),
            },
            r is Ok <==> (bytes@.len() >= Self::V1_LEN && bytes@[0]
                == AccountDiscriminator::SubscriptionDelegation.byte()),
    {
        check_min_account_size(bytes.len(), Self::V1_LEN)?;
        if bytes[0] != AccountDiscriminator::SubscriptionDelegation.as_u8() {
            return Err(SubscriptionsError::InvalidAccountDiscriminator);
        }
        let buf = copy_zero_padded(bytes, Self::LEN);
        let d = Self::parse(buf.as_slice());
        assert(buf@.subrange(0, Self::LEN as int) =~= buf@);
        Ok(d)
    }

    /// Serializes the record.
    pub fn to_bytes(&self) -> (v: Vec<u8>)
        ensures
            v@ == self.encode(),
    {
        let mut v: Vec<u8> = Vec::new();
        self.header.write(&mut v);
        self.terms.write(&mut v);
        write_u64(&mut v, self.amount_pulled_in_period);
        write_i64(&mut v, self.current_period_start_ts);
        write_i64(&mut v, self.expires_at_ts);
        assert(v@ =~= self.encode());
        v
    }

    /// Serializing a well-marked account and loading the bytes back gives the same account:
    /// the bytes have the accepted length and kind, and no other account has them.
    pub proof fn law_bytes_roundtrip(d: Self)
        requires
            d.header.discriminator == AccountDiscriminator::SubscriptionDelegation.byte(),
        ensures
            d.encode().len() == Self::LEN,
            d.encode()[0] == AccountDiscriminator::SubscriptionDelegation.byte(),
            forall|e: Self| #[trigger] e.encode() == d.encode() ==> e == d,
    {
        d.lemma_encode_len();
        d.header.lemma_encode_len();
        assert(d.encode()[0] == d.header.encode()[0]);
        assert forall|e: Self| #[trigger] e.encode() == d.encode() implies e == d by {
            Self::lemma_encode_injective(e, d);
        }
    }
}

impl SubscriptionDelegation {
    /// Checks that the live plan still has the terms snapshotted at
    /// subscribe time; a plan recreated with other terms does not match.
    pub fn check_plan_terms(&self, terms: &PlanTerms) -> (r: Result<(), SubscriptionsError>)
        ensures
            r == (if self.terms == *terms {
                Ok(())
            } else {
                Err(SubscriptionsError::PlanTermsMismatch)
            }),
    {
        if self.terms.amount == terms.amount && self.terms.period_hours == terms.period_hours
            && self.terms.created_at == terms.created_at {
            Ok(())
        } else {
            Err(SubscriptionsError::PlanTermsMismatch)
        }
    }
}

impl SubscriptionDelegation {
    /// What [`Self::load_for_revoke`] gives for `bytes`: the one record
    /// their zero-padded first `LEN` bytes encode, or why they are refused.
    pub open spec fn revoke_load_verdict(bytes: Seq<u8>) -> Result<Self, SubscriptionsError> {
        if bytes.len() < Self::V1_LEN {
            Err(SubscriptionsError::InvalidAccountData)
        } else if bytes[0] != AccountDiscriminator::SubscriptionDelegation.byte() {
            Err(SubscriptionsError::InvalidAccountDiscriminator)
        } else {
            Ok(choose|d: Self| d.encode() == zero_padded(bytes, Self::LEN as int))
        }
    }

    /// A result of [`Self::load_for_revoke`] agrees with
    /// [`Self::revoke_load_verdict`].
    pub proof fn lemma_revoke_load_verdict(bytes: Seq<u8>, r: Result<Self, SubscriptionsError>)
        requires
            match r {
                Ok(d) => d.encode() == zero_padded(bytes, Self::LEN as int),
                Err(e) => e == (if bytes.len() < Self::V1_LEN {
                    SubscriptionsError::InvalidAccountData
                } else {
                    SubscriptionsError::InvalidAccountDiscriminator
                }),
            },
            r is Ok <==> (bytes.len() >= Self::V1_LEN && bytes[0] == AccountDiscriminator::SubscriptionDelegation.byte()),
        ensures
            Self::revoke_load_verdict(bytes) == r,
    {
        if let Ok(d) = r {
            let c = choose|c: Self| c.encode() == zero_padded(bytes, Self::LEN as int);
            assert(d.encode() == zero_padded(bytes, Self::LEN as int));
            Self::lemma_encode_injective(c, d);
        }
    }
}

impl SubscriptionDelegation {
    /// What loading `bytes` gives: the one record they encode, or why they
    /// are refused.
    pub open spec fn load_verdict(bytes: Seq<u8>) -> Result<Self, SubscriptionsError> {
        if bytes.len() != Self::LEN {
            Err(SubscriptionsError::InvalidAccountData)
        } else if bytes[0] != AccountDiscriminator::SubscriptionDelegation.byte() {
            Err(SubscriptionsError::InvalidAccountDiscriminator)
        } else {
            Ok(choose|d: Self| d.encode() == bytes)
        }
    }

    /// A result of [`Self::load`] agrees with [`Self::load_verdict`].
    pub proof fn lemma_load_verdict(bytes: Seq<u8>, r: Result<Self, SubscriptionsError>)
        requires
            match r {
                Ok(d) => d.encode() == bytes,
                Err(e) => e == (if bytes.len() != Self::LEN {
                    SubscriptionsError::InvalidAccountData
                } else {
                    SubscriptionsError::InvalidAccountDiscriminator
                }),
            },
            r is Ok <==> (bytes.len() == Self::LEN && bytes[0] == AccountDiscriminator::SubscriptionDelegation.byte()),
        ensures
            Self::load_verdict(bytes) == r,
    {
        if let Ok(d) = r {
            let c = choose|c: Self| c.encode() == bytes;
            Self::lemma_encode_injective(c, d);
        }
    }
}

} // verus!


