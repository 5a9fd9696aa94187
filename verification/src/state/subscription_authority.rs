use vstd::prelude::*;

use crate::address::Address;
use crate::codec::{le_i64, lemma_le_i64_injective, lemma_le_len, read_address, read_i64, write_address, write_i64};
use crate::errors::SubscriptionsError;
use crate::state::common::{AccountDiscriminator};

verus! {

/// The per-(user, mint) PDA that is the token delegate on the user's account.
#[derive(Clone, Copy, Debug, PartialEq, Eq)]
pub struct SubscriptionAuthority {
    /// Account kind byte.
    pub discriminator: u8,
    /// The token owner.
    pub user: Address,
    /// The token mint.
    pub token_mint: Address,
    /// Who funded the rent and receives it back on close.
    pub payer: Address,
    /// PDA bump seed.
    pub bump: u8,
    /// Generation of this authority: the slot it was created in.
    pub init_id: i64,
}

impl SubscriptionAuthority {
    /// Serialized size in bytes.
    pub const LEN: usize = 106;

    /// The record's bytes.
    pub open spec fn encode(&self) -> Seq<u8> {
        seq![self.discriminator] + self.user@ + self.token_mint@ + self.payer@ + seq![self.bump] + le_i64(self.init_id)
    }

    /// The encoding is `LEN` bytes long.
    pub proof fn lemma_encode_len(&self)
        ensures
            self.encode().len() == Self::LEN,
    {
        lemma_le_len(0, self.init_id);
    }

    /// Two records with the same bytes are equal.
    pub proof fn lemma_encode_injective(a: Self, b: Self)
        requires
            a.encode() == b.encode(),
        ensures
            a == b,
    {
        lemma_le_len(0, a.init_id);
        lemma_le_len(0, b.init_id);
        let s = a.encode();
        assert(s[0] == a.discriminator && s[0] == b.discriminator);
        assert(a.user@ =~= s.subrange(1, 33));
        assert(b.user@ =~= s.subrange(1, 33));
        assert(a.user.bytes == b.user.bytes);
        assert(a.token_mint@ =~= s.subrange(33, 65));
        assert(b.token_mint@ =~= s.subrange(33, 65));
        assert(a.token_mint.bytes == b.token_mint.bytes);
        assert(a.payer@ =~= s.subrange(65, 97));
        assert(b.payer@ =~= s.subrange(65, 97));
        assert(a.payer.bytes == b.payer.bytes);
        assert(s[97] == a.bump && s[97] == b.bump);
        assert(le_i64(a.init_id) =~= s.subrange(98, 106));
        assert(le_i64(b.init_id) =~= s.subrange(98, 106));
        lemma_le_i64_injective(a.init_id, b.init_id);
    }

    /// Decodes the first `LEN` bytes of `data`.
    pub fn parse(data: &[u8]) -> (d: Self)
        requires
            data@.len() >= Self::LEN,
        ensures
            d.encode() == data@.subrange(0, Self::LEN as int),
    {
        let d = SubscriptionAuthority {
            discriminator: data[0],
            user: read_address(data, 1),
            token_mint: read_address(data, 33),
            payer: read_address(data, 65),
            bump: data[97],
            init_id: read_i64(data, 98),
        };
        assert(d.encode() =~= data@.subrange(0, Self::LEN as int));
        d
    }

    /// Deserializes account data of exactly `LEN` bytes marked as [`AccountDiscriminator::SubscriptionAuthority`].
    pub fn load(bytes: &[u8]) -> (r: Result<Self, SubscriptionsError>)
        ensures
            match r {
                Ok(d) => d.encode() == bytes@,
                Err(e) => e == (if bytes@.len() != Self::LEN {
                    SubscriptionsError::InvalidAccountData
                } else {
                    SubscriptionsError::InvalidAccountDiscriminator
                }),
            },
            r is Ok <==> (bytes@.len() == Self::LEN && bytes@[0]
                == AccountDiscriminator::SubscriptionAuthority.byte()),
    {
        if bytes.len() != Self::LEN {
            return Err(SubscriptionsError::InvalidAccountData);
        }
        if bytes[0] != AccountDiscriminator::SubscriptionAuthority.as_u8() {
            return Err(SubscriptionsError::InvalidAccountDiscriminator);
        }
        let d = Self::parse(bytes);
        assert(bytes@.subrange(0, Self::LEN as int) =~= bytes@);
        Ok(d)
    }

    /// Serializes the record.
    pub fn to_bytes(&self) -> (v: Vec<u8>)
        ensures
            v@ == self.encode(),
    {
        let mut v: Vec<u8> = Vec::new();
        v.push(self.discriminator);
        write_address(&mut v, &self.user);
        write_address(&mut v, &self.token_mint);
        write_address(&mut v, &self.payer);
        v.push(self.bump);
        write_i64(&mut v, self.init_id);
        assert(v@ =~= self.encode());
        v
    }

    /// Serializing a well-marked account and loading the bytes back gives the same account:
    /// the bytes have the accepted length and kind, and no other account has them.
    pub proof fn law_bytes_roundtrip(d: Self)
        requires
            d.discriminator == AccountDiscriminator::SubscriptionAuthority.byte(),
        ensures
            d.encode().len() == Self::LEN,
            d.encode()[0] == AccountDiscriminator::SubscriptionAuthority.byte(),
            forall|e: Self| #[trigger] e.encode() == d.encode() ==> e == d,
    {
        d.lemma_encode_len();
        assert forall|e: Self| #[trigger] e.encode() == d.encode() implies e == d by {
            Self::lemma_encode_injective(e, d);
        }
    }
}

impl SubscriptionAuthority {
    /// Checks that `user` owns this authority.
    pub fn check_owner(&self, user: &Address) -> (r: Result<(), SubscriptionsError>)
        ensures
            r == (if self.user@ == user@ {
                Ok(())
            } else {
                Err(SubscriptionsError::Unauthorized)
            }),
    {
        if self.user.equals(user) {
            Ok(())
        } else {
            Err(SubscriptionsError::Unauthorized)
        }
    }
}

impl SubscriptionAuthority {
    /// What loading `bytes` gives: the one record they encode, or why they
    /// are refused.
    pub open spec fn load_verdict(bytes: Seq<u8>) -> Result<Self, SubscriptionsError> {
        if bytes.len() != Self::LEN {
            Err(SubscriptionsError::InvalidAccountData)
        } else if bytes[0] != AccountDiscriminator::SubscriptionAuthority.byte() {
            Err(SubscriptionsError::InvalidAccountDiscriminator)
        } else {
            Ok(choose|d: Self| d.encode() == bytes)
        }
    }

    /// A successful [`Self::load`] agrees with [`Self::load_verdict`], and so
    /// does a refused one.
    pub proof fn lemma_load_verdict(bytes: Seq<u8>, r: Result<Self, SubscriptionsError>)
        requires
            match r {
                Ok(d) => d.encode() == bytes,
                Err(e) => e == (if bytes.len() != Self::LEN {
                    SubscriptionsError::InvalidAccountData
                } else {
                    SubscriptionsError::InvalidAccountDiscriminator
                }),
            },
            r is Ok <==> (bytes.len() == Self::LEN && bytes[0] == AccountDiscriminator::SubscriptionAuthority.byte()),
        ensures
            Self::load_verdict(bytes) == r,
    {
        if let Ok(d) = r {
            let c = choose|c: Self| c.encode() == bytes;
            assert(d.encode() == bytes);
            Self::lemma_encode_injective(c, d);
        }
    }
}

} // verus!

