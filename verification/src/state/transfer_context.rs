use vstd::prelude::*;

use crate::address::Address;
use crate::codec::{read_address, write_address};
use crate::errors::SubscriptionsError;
use crate::state::common::{AccountDiscriminator, CURRENT_VERSION};

verus! {

/// Details of an in-flight pull published for a mint's transfer hook.
#[derive(Clone, Copy, Debug, PartialEq, Eq)]
pub struct TransferContext {
    /// Account kind byte.
    pub discriminator: u8,
    /// Schema version.
    pub version: u8,
    /// The delegate that initiated the pull.
    pub initiator: Address,
    /// The delegation account authorizing the pull.
    pub delegation: Address,
    /// Kind byte of the account at `delegation`.
    pub delegation_kind: u8,
}

impl TransferContext {
    /// Serialized size in bytes.
    pub const LEN: usize = 67;

    /// The record's bytes.
    pub open spec fn encode(&self) -> Seq<u8> {
        seq![self.discriminator] + seq![self.version] + self.initiator@ + self.delegation@ + seq![self.delegation_kind]
    }

    /// The encoding is `LEN` bytes long.
    pub proof fn lemma_encode_len(&self)
        ensures
            self.encode().len() == Self::LEN,
    {
    }

    /// Two records with the same bytes are equal.
    pub proof fn lemma_encode_injective(a: Self, b: Self)
        requires
            a.encode() == b.encode(),
        ensures
            a == b,
    {
        let s = a.encode();
        assert(s[0] == a.discriminator && s[0] == b.discriminator);
        assert(s[1] == a.version && s[1] == b.version);
        assert(a.initiator@ =~= s.subrange(2, 34));
        assert(b.initiator@ =~= s.subrange(2, 34));
        assert(a.initiator.bytes == b.initiator.bytes);
        assert(a.delegation@ =~= s.subrange(34, 66));
        assert(b.delegation@ =~= s.subrange(34, 66));
        assert(a.delegation.bytes == b.delegation.bytes);
        assert(s[66] == a.delegation_kind && s[66] == b.delegation_kind);
    }

    /// Decodes the first `LEN` bytes of `data`.
    pub fn parse(data: &[u8]) -> (d: Self)
        requires
            data@.len() >= Self::LEN,
        ensures
            d.encode() == data@.subrange(0, Self::LEN as int),
    {
        let d = TransferContext {
            discriminator: data[0],
            version: data[1],
            initiator: read_address(data, 2),
            delegation: read_address(data, 34),
            delegation_kind: data[66],
        };
        assert(d.encode() =~= data@.subrange(0, Self::LEN as int));
        d
    }

    /// Deserializes account data of exactly `LEN` bytes marked as [`AccountDiscriminator::TransferContext`].
    pub fn load(bytes: &[u8]) -> (r: Result<Self, SubscriptionsError>)
        ensures
            match r {
                Ok(d) => d.encode() == bytes@,
                Err(e) => e == (if bytes@.len() != Self::LEN {
                    SubscriptionsError::InvalidAccountData
                } else {
                    SubscriptionsError::InvalidAccountDiscriminator
                }),
            },
            r is Ok <==> (bytes@.len() == Self::LEN && bytes@[0]
                == AccountDiscriminator::TransferContext.byte()),
    {
        if bytes.len() != Self::LEN {
            return Err(SubscriptionsError::InvalidAccountData);
        }
        if bytes[0] != AccountDiscriminator::TransferContext.as_u8() {
            return Err(SubscriptionsError::InvalidAccountDiscriminator);
        }
        let d = Self::parse(bytes);
        assert(bytes@.subrange(0, Self::LEN as int) =~= bytes@);
        Ok(d)
    }

    /// Serializes the record.
    pub fn to_bytes(&self) -> (v: Vec<u8>)
        ensures
            v@ == self.encode(),
    {
        let mut v: Vec<u8> = Vec::new();
        v.push(self.discriminator);
        v.push(self.version);
        write_address(&mut v, &self.initiator);
        write_address(&mut v, &self.delegation);
        v.push(self.delegation_kind);
        assert(v@ =~= self.encode());
        v
    }

    /// Serializing a well-marked account and loading the bytes back gives the same account:
    /// the bytes have the accepted length and kind, and no other account has them.
    pub proof fn law_bytes_roundtrip(d: Self)
        requires
            d.discriminator == AccountDiscriminator::TransferContext.byte(),
        ensures
            d.encode().len() == Self::LEN,
            d.encode()[0] == AccountDiscriminator::TransferContext.byte(),
            forall|e: Self| #[trigger] e.encode() == d.encode() ==> e == d,
    {
        d.lemma_encode_len();
        assert forall|e: Self| #[trigger] e.encode() == d.encode() implies e == d by {
            Self::lemma_encode_injective(e, d);
        }
    }
}

impl TransferContext {
    /// The context a freshly created account of `data_len` bytes receives:
    /// the initiator, the delegation and its kind, at the current version.
    pub fn init(data_len: usize, initiator: &Address, delegation: &Address, delegation_kind: AccountDiscriminator) -> (r:
        Result<Self, SubscriptionsError>)
        ensures
            match r {
                Ok(c) => data_len == Self::LEN && c == (TransferContext {
                    discriminator: AccountDiscriminator::TransferContext.byte(),
                    version: CURRENT_VERSION,
                    initiator: *initiator,
                    delegation: *delegation,
                    delegation_kind: delegation_kind.byte(),
                }),
                Err(e) => data_len != Self::LEN && e == SubscriptionsError::InvalidAccountData,
            },
    {
        if data_len != Self::LEN {
            return Err(SubscriptionsError::InvalidAccountData);
        }
        Ok(
            TransferContext {
                discriminator: AccountDiscriminator::TransferContext.as_u8(),
                version: CURRENT_VERSION,
                initiator: *initiator,
                delegation: *delegation,
                delegation_kind: delegation_kind.as_u8(),
            },
        )
    }
}

} // verus!

