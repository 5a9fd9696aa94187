use vstd::prelude::*;

use crate::address::Address;
use crate::codec::{copy_zero_padded, le_i64, le_u64, lemma_le_i64_injective, lemma_le_len, lemma_le_u64_injective, read_address, read_i64, read_u64, write_address, write_i64, write_u64, zero_padded};
use crate::errors::SubscriptionsError;
use crate::state::common::{check_min_account_size, AccountDiscriminator};
use crate::state::header::Header;

verus! {

/// A fixed delegation: the delegatee may transfer up to `amount` tokens in
/// total before the optional `expiry_ts`; each transfer decrements `amount`.
#[derive(Clone, Copy, Debug, PartialEq, Eq)]
pub struct FixedDelegation {
    /// Common delegation header.
    pub header: Header,
    /// The SubscriptionAuthority PDA used when this delegation was created.
    pub subscription_authority: Address,
    /// The token mint this delegation authorizes.
    pub mint: Address,
    /// Remaining token amount the delegatee may transfer.
    pub amount: u64,
    /// Unix timestamp after which the delegation is no longer valid; `0` means none.
    pub expiry_ts: i64,
}

impl FixedDelegation {
    /// Serialized size in bytes.
    pub const LEN: usize = 187;

    /// First-version length: the frozen minimum accepted on revoke.
    pub const V1_LEN: usize = 187;

    /// The record's bytes.
    pub open spec fn encode(&self) -> Seq<u8> {
        self.header.encode() + self.subscription_authority@ + self.mint@ + le_u64(self.amount) + le_i64(self.expiry_ts)
    }

    /// The encoding is `LEN` bytes long.
    pub proof fn lemma_encode_len(&self)
        ensures
            self.encode().len() == Self::LEN,
    {
        self.header.lemma_encode_len();
        lemma_le_len(self.amount, 0);
        lemma_le_len(0, self.expiry_ts);
    }

    /// Two records with the same bytes are equal.
    pub proof fn lemma_encode_injective(a: Self, b: Self)
        requires
            a.encode() == b.encode(),
        ensures
            a == b,
    {
        a.header.lemma_encode_len();
        lemma_le_len(a.amount, 0);
        lemma_le_len(0, a.expiry_ts);
        b.header.lemma_encode_len();
        lemma_le_len(b.amount, 0);
        lemma_le_len(0, b.expiry_ts);
        let s = a.encode();
        assert(a.header.encode() =~= s.subrange(0, 107));
        assert(b.header.encode() =~= s.subrange(0, 107));
        Header::lemma_encode_injective(a.header, b.header);
        assert(a.subscription_authority@ =~= s.subrange(107, 139));
        assert(b.subscription_authority@ =~= s.subrange(107, 139));
        assert(a.subscription_authority.bytes == b.subscription_authority.bytes);
        assert(a.mint@ =~= s.subrange(139, 171));
        assert(b.mint@ =~= s.subrange(139, 171));
        assert(a.mint.bytes == b.mint.bytes);
        assert(le_u64(a.amount) =~= s.subrange(171, 179));
        assert(le_u64(b.amount) =~= s.subrange(171, 179));
        lemma_le_u64_injective(a.amount, b.amount);
        assert(le_i64(a.expiry_ts) =~= s.subrange(179, 187));
        assert(le_i64(b.expiry_ts) =~= s.subrange(179, 187));
        lemma_le_i64_injective(a.expiry_ts, b.expiry_ts);
    }

    /// Decodes the first `LEN` bytes of `data`.
    pub fn parse(data: &[u8]) -> (d: Self)
        requires
            data@.len() >= Self::LEN,
        ensures
            d.encode() == data@.subrange(0, Self::LEN as int),
    {
        let d = FixedDelegation {
            header: Header::parse(data),
            subscription_authority: read_address(data, 107),
            mint: read_address(data, 139),
            amount: read_u64(data, 171),
            expiry_ts: read_i64(data, 179),
        };
        assert(d.encode() =~= data@.subrange(0, Self::LEN as int));
        d
    }

    /// Deserializes account data of exactly `LEN` bytes marked as [`AccountDiscriminator::FixedDelegation`].
    pub fn load(bytes: &[u8]) -> (r: Result<Self, SubscriptionsError>)
        ensures
            match r {
                Ok(d) => d.encode() == bytes@,
                Err(e) => e == (if bytes@.len() != Self::LEN {
                    SubscriptionsError::InvalidAccountData
                } else {
                    SubscriptionsError::InvalidAccountDiscriminator
                }),
            },
            r is Ok <==> (bytes@.len() == Self::LEN && bytes@[0]
                == AccountDiscriminator::FixedDelegation.byte()),
    {
        if bytes.len() != Self::LEN {
            return Err(SubscriptionsError::InvalidAccountData);
        }
        if bytes[0] != AccountDiscriminator::FixedDelegation.as_u8() {
            return Err(SubscriptionsError::InvalidAccountDiscriminator);
        }
        let d = Self::parse(bytes);
        assert(bytes@.subrange(0, Self::LEN as int) =~= bytes@);
        Ok(d)
    }

    /// Version-agnostic load for revoke and close: accepts any account at
    /// least `V1_LEN` long carrying this kind, reading bytes past the end as zero.
    pub fn load_for_revoke(bytes: &[u8]) -> (r: Result<Self, SubscriptionsError>)
        ensures
            match r {
                Ok(d) => d.encode() == zero_padded(bytes@, Self::LEN as int),
                Err(e) => e == (if bytes@.len() < Self::V1_LEN {
                    SubscriptionsError::InvalidAccountData
                } else {
                    SubscriptionsError::InvalidAccountDiscriminator
                }),
            },
            r is Ok <==> (bytes@.len() >= Self::V1_LEN && bytes@[0]
                == AccountDiscriminator::FixedDelegation.byte()),
    {
        check_min_account_size(bytes.len(), Self::V1_LEN)?;
        if bytes[0] != AccountDiscriminator::FixedDelegation.as_u8() {
            return Err(SubscriptionsError::InvalidAccountDiscriminator);
        }
        let buf = copy_zero_padded(bytes, Self::LEN);
        let d = Self::parse(buf.as_slice());
        assert(buf@.subrange(0, Self::LEN as int) =~= buf@);
        Ok(d)
    }

    /// Serializes the record.
    pub fn to_bytes(&self) -> (v: Vec<u8>)
        ensures
            v@ == self.encode(),
    {
        let mut v: Vec<u8> = Vec::new();
        self.header.write(&mut v);
        write_address(&mut v, &self.subscription_authority);
        write_address(&mut v, &self.mint);
        write_u64(&mut v, self.amount);
        write_i64(&mut v, self.expiry_ts);
        assert(v@ =~= self.encode());
        v
    }

    /// Serializing a well-marked account and loading the bytes back gives the same account:
    /// the bytes have the accepted length and kind, and no other account has them.
    pub proof fn law_bytes_roundtrip(d: Self)
        requires
            d.header.discriminator == AccountDiscriminator::FixedDelegation.byte(),
        ensures
            d.encode().len() == Self::LEN,
            d.encode()[0] == AccountDiscriminator::FixedDelegation.byte(),
            forall|e: Self| #[trigger] e.encode() == d.encode() ==> e == d,
    {
        d.lemma_encode_len();
        d.header.lemma_encode_len();
        assert(d.encode()[0] == d.header.encode()[0]);
        assert forall|e: Self| #[trigger] e.encode() == d.encode() implies e == d by {
            Self::lemma_encode_injective(e, d);
        }
    }
}

impl FixedDelegation {
    /// What [`Self::load_for_revoke`] gives for `bytes`: the one record
    /// their zero-padded first `LEN` bytes encode, or why they are refused.
    pub open spec fn revoke_load_verdict(bytes: Seq<u8>) -> Result<Self, SubscriptionsError> {
        if bytes.len() < Self::V1_LEN {
            Err(SubscriptionsError::InvalidAccountData)
        } else if bytes[0] != AccountDiscriminator::FixedDelegation.byte() {
            Err(SubscriptionsError::InvalidAccountDiscriminator)
        } else {
            Ok(choose|d: Self| d.encode() == zero_padded(bytes, Self::LEN as int))
        }
    }

    /// A result of [`Self::load_for_revoke`] agrees with
    /// [`Self::revoke_load_verdict`].
    pub proof fn lemma_revoke_load_verdict(bytes: Seq<u8>, r: Result<Self, SubscriptionsError>)
        requires
            match r {
                Ok(d) => d.encode() == zero_padded(bytes, Self::LEN as int),
                Err(e) => e == (if bytes.len() < Self::V1_LEN {
                    SubscriptionsError::InvalidAccountData
                } else {
                    SubscriptionsError::InvalidAccountDiscriminator
                }),
            },
            r is Ok <==> (bytes.len() >= Self::V1_LEN && bytes[0] == AccountDiscriminator::FixedDelegation.byte()),
        ensures
            Self::revoke_load_verdict(bytes) == r,
    {
        if let Ok(d) = r {
            let c = choose|c: Self| c.encode() == zero_padded(bytes, Self::LEN as int);
            assert(d.encode() == zero_padded(bytes, Self::LEN as int));
            Self::lemma_encode_injective(c, d);
        }
    }
}

impl FixedDelegation {
    /// What loading `bytes` gives: the one record they encode, or why they
    /// are refused.
    pub open spec fn load_verdict(bytes: Seq<u8>) -> Result<Self, SubscriptionsError> {
        if bytes.len() != Self::LEN {
            Err(SubscriptionsError::InvalidAccountData)
        } else if bytes[0] != AccountDiscriminator::FixedDelegation.byte() {
            Err(SubscriptionsError::InvalidAccountDiscriminator)
        } else {
            Ok(choose|d: Self| d.encode() == bytes)
        }
    }

    /// A result of [`Self::load`] agrees with [`Self::load_verdict`].
    pub proof fn lemma_load_verdict(bytes: Seq<u8>, r: Result<Self, SubscriptionsError>)
        requires
            match r {
                Ok(d) => d.encode() == bytes,
                Err(e) => e == (if bytes.len() != Self::LEN {
                    SubscriptionsError::InvalidAccountData
                } else {
                    SubscriptionsError::InvalidAccountDiscriminator
                }),
            },
            r is Ok <==> (bytes.len() == Self::LEN && bytes[0] == AccountDiscriminator::FixedDelegation.byte()),
        ensures
            Self::load_verdict(bytes) == r,
    {
        if let Ok(d) = r {
            let c = choose|c: Self| c.encode() == bytes;
            Self::lemma_encode_injective(c, d);
        }
    }
}

} // verus!


