use vstd::prelude::*;

use crate::address::Address;
use crate::codec::{le_i64, lemma_le_i64_injective, lemma_le_len, read_address, read_i64, write_address, write_i64};
use crate::state::common::{AccountDiscriminator, CURRENT_VERSION};

verus! {

/// Byte offset of the account kind.
pub const DISCRIMINATOR_OFFSET: usize = 0;

/// Byte offset of the schema version.
pub const VERSION_OFFSET: usize = 1;

/// Byte offset of the PDA bump.
pub const BUMP_OFFSET: usize = 2;

/// Byte offset of the delegator address.
pub const DELEGATOR_OFFSET: usize = 3;

/// Byte offset of the delegatee address.
pub const DELEGATEE_OFFSET: usize = 35;

/// Byte offset of the payer address.
pub const PAYER_OFFSET: usize = 67;

/// Byte offset of the authority generation the delegation was created under.
pub const INIT_ID_OFFSET: usize = 99;

/// The header shared by all delegation accounts.
#[derive(Clone, Copy, Debug, PartialEq, Eq)]
pub struct Header {
    /// Account kind byte.
    pub discriminator: u8,
    /// Schema version.
    pub version: u8,
    /// PDA bump seed.
    pub bump: u8,
    /// The token owner (or subscriber).
    pub delegator: Address,
    /// The party allowed to pull (or the plan of a subscription).
    pub delegatee: Address,
    /// Who funded the account's rent and receives it back on close.
    pub payer: Address,
    /// The SubscriptionAuthority generation the delegation was created under.
    pub init_id: i64,
}

impl Header {
    /// Serialized size in bytes.
    pub const LEN: usize = 107;

    /// The header's bytes.
    pub open spec fn encode(&self) -> Seq<u8> {
        seq![self.discriminator, self.version, self.bump] + self.delegator@ + self.delegatee@
            + self.payer@ + le_i64(self.init_id)
    }

    /// The encoding is `LEN` bytes long.
    pub proof fn lemma_encode_len(&self)
        ensures
            self.encode().len() == Self::LEN,
    {
        lemma_le_len(0, self.init_id);
    }

    /// Two headers with the same bytes are equal.
    pub proof fn lemma_encode_injective(a: Header, b: Header)
        requires
            a.encode() == b.encode(),
        ensures
            a == b,
    {
        lemma_le_len(0, a.init_id);
        lemma_le_len(0, b.init_id);
        let s = a.encode();
        assert(a.delegator@ =~= s.subrange(3, 35));
        assert(b.delegator@ =~= s.subrange(3, 35));
        assert(a.delegatee@ =~= s.subrange(35, 67));
        assert(b.delegatee@ =~= s.subrange(35, 67));
        assert(a.payer@ =~= s.subrange(67, 99));
        assert(b.payer@ =~= s.subrange(67, 99));
        assert(le_i64(a.init_id) =~= s.subrange(99, 107));
        assert(le_i64(b.init_id) =~= s.subrange(99, 107));
        lemma_le_i64_injective(a.init_id, b.init_id);
        assert(a.delegator.bytes == b.delegator.bytes);
        assert(a.delegatee.bytes == b.delegatee.bytes);
        assert(a.payer.bytes == b.payer.bytes);
        assert(s[0] == a.discriminator && s[0] == b.discriminator);
        assert(s[1] == a.version && s[1] == b.version);
        assert(s[2] == a.bump && s[2] == b.bump);
    }

    /// Decodes the header from the first `LEN` bytes of `data`.
    pub fn parse(data: &[u8]) -> (h: Header)
        requires
            data@.len() >= Self::LEN,
        ensures
            h.encode() == data@.subrange(0, Self::LEN as int),
    {
        let h = Header {
            discriminator: data[DISCRIMINATOR_OFFSET],
            version: data[VERSION_OFFSET],
            bump: data[BUMP_OFFSET],
            delegator: read_address(data, DELEGATOR_OFFSET),
            delegatee: read_address(data, DELEGATEE_OFFSET),
            payer: read_address(data, PAYER_OFFSET),
            init_id: read_i64(data, INIT_ID_OFFSET),
        };
        assert(h.encode() =~= data@.subrange(0, Self::LEN as int));
        h
    }

    /// Appends the header's bytes to `out`.
    pub fn write(&self, out: &mut Vec<u8>)
        ensures
            final(out)@ == old(out)@ + self.encode(),
    {
        out.push(self.discriminator);
        out.push(self.version);
        out.push(self.bump);
        write_address(out, &self.delegator);
        write_address(out, &self.delegatee);
        write_address(out, &self.payer);
        write_i64(out, self.init_id);
        assert(out@ =~= old(out)@ + self.encode());
    }

    /// A fresh header for an account of kind `kind` at the current version.
    pub open spec fn spec_init(
        kind: AccountDiscriminator,
        bump: u8,
        delegator: Address,
        delegatee: Address,
        payer: Address,
        init_id: i64,
    ) -> Header {
        Header {
            discriminator: kind.byte(),
            version: CURRENT_VERSION,
            bump,
            delegator,
            delegatee,
            payer,
            init_id,
        }
    }

    /// A fresh header for an account of kind `kind` at the current version.
    pub fn init(
        kind: AccountDiscriminator,
        bump: u8,
        delegator: &Address,
        delegatee: &Address,
        payer: &Address,
        init_id: i64,
    ) -> (h: Header)
        ensures
            h == Self::spec_init(kind, bump, *delegator, *delegatee, *payer, init_id),
    {
        Header {
            discriminator: kind.as_u8(),
            version: CURRENT_VERSION,
            bump,
            delegator: *delegator,
            delegatee: *delegatee,
            payer: *payer,
            init_id,
        }
    }
}

} // verus!
