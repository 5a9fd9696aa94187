//! Events the program emits for indexers: an 8-byte instruction tag, a
//! one-byte event discriminator, then the event's fixed-size payload.

use vstd::prelude::*;

use crate::address::Address;
use crate::codec::{
    addresses_bytes, le_i64, le_u64, lemma_addresses_bytes_injective, lemma_addresses_bytes_len,
    lemma_le_i64_injective, lemma_le_len, lemma_le_u64_injective, read_address, read_addresses, read_i64,
    read_u64, write_address, write_addresses, write_bytes, write_i64, write_u64,
};
use crate::errors::SubscriptionsError;

verus! {

/// The instruction tag that marks event data, little endian.
pub const EVENT_IX_TAG_LE: [u8; 8] = [228u8, 69, 165, 46, 81, 203, 154, 29];

/// Length of the tag and the discriminator byte together.
pub const EVENT_DISCRIMINATOR_LEN: usize = 9;

/// The bytes of [`EVENT_IX_TAG_LE`].
pub open spec fn event_tag() -> Seq<u8> {
    seq![228u8, 69, 165, 46, 81, 203, 154, 29]
}

/// The kinds of event, by discriminator byte.
#[derive(Clone, Copy, Debug, PartialEq, Eq, Structural)]
pub enum EventDiscriminators {
    /// A subscription was created.
    SubscriptionCreated,
    /// A subscription was cancelled.
    SubscriptionCancelled,
    /// A subscription payment was pulled.
    SubscriptionTransfer,
    /// A fixed delegation was spent from.
    FixedTransfer,
    /// A recurring delegation was spent from.
    RecurringTransfer,
    /// A cancelled subscription was resumed.
    SubscriptionResumed,
    /// A plan was updated.
    PlanUpdated,
    /// The single draw of an up-to delegation was made.
    UpToTransfer,
}

impl EventDiscriminators {
    /// The byte that marks this kind.
    pub open spec fn byte(self) -> u8 {
        match self {
            EventDiscriminators::SubscriptionCreated => 0,
            EventDiscriminators::SubscriptionCancelled => 1,
            EventDiscriminators::SubscriptionTransfer => 2,
            EventDiscriminators::FixedTransfer => 3,
            EventDiscriminators::RecurringTransfer => 4,
            EventDiscriminators::SubscriptionResumed => 5,
            EventDiscriminators::PlanUpdated => 6,
            EventDiscriminators::UpToTransfer => 7,
        }
    }

    /// The byte that marks this kind.
    pub fn as_u8(&self) -> (b: u8)
        ensures
            b == self.byte(),
    {
        match self {
            EventDiscriminators::SubscriptionCreated => 0,
            EventDiscriminators::SubscriptionCancelled => 1,
            EventDiscriminators::SubscriptionTransfer => 2,
            EventDiscriminators::FixedTransfer => 3,
            EventDiscriminators::RecurringTransfer => 4,
            EventDiscriminators::SubscriptionResumed => 5,
            EventDiscriminators::PlanUpdated => 6,
            EventDiscriminators::UpToTransfer => 7,
        }
    }

    /// The kind marked by `b`, if any.
    pub fn try_from_u8(b: u8) -> (r: Result<EventDiscriminators, SubscriptionsError>)
        ensures
            match r {
                Ok(d) => d.byte() == b,
                Err(e) => e == SubscriptionsError::InvalidEventDiscriminator,
            },
            b <= 7 <==> r is Ok,
    {
        match b {
            0 => Ok(EventDiscriminators::SubscriptionCreated),
            1 => Ok(EventDiscriminators::SubscriptionCancelled),
            2 => Ok(EventDiscriminators::SubscriptionTransfer),
            3 => Ok(EventDiscriminators::FixedTransfer),
            4 => Ok(EventDiscriminators::RecurringTransfer),
            5 => Ok(EventDiscriminators::SubscriptionResumed),
            6 => Ok(EventDiscriminators::PlanUpdated),
            7 => Ok(EventDiscriminators::UpToTransfer),
            _ => Err(SubscriptionsError::InvalidEventDiscriminator),
        }
    }
}

/// The tag and the discriminator byte of an event of kind `kind`.
pub fn event_header(kind: EventDiscriminators) -> (v: Vec<u8>)
    ensures
        v@ == event_tag() + seq![kind.byte()],
{
    let mut v: Vec<u8> = Vec::new();
    write_bytes(&mut v, &EVENT_IX_TAG_LE);
    v.push(kind.as_u8());
    assert(v@ =~= event_tag() + seq![kind.byte()]);
    v
}

/// Emitted when a subscriber subscribes to a plan.
#[derive(Clone, Copy, Debug, PartialEq, Eq)]
pub struct SubscriptionCreatedEvent {
    /// The plan PDA.
    pub plan: Address,
    /// The subscriber.
    pub subscriber: Address,
    /// The plan's token mint.
    pub mint: Address,
    /// When the subscription was created.
    pub created_ts: i64,
}

impl SubscriptionCreatedEvent {
    /// Serialized size in bytes.
    pub const DATA_LEN: usize = 104;

    /// The record's bytes.
    pub open spec fn encode(&self) -> Seq<u8> {
        self.plan@ + self.subscriber@ + self.mint@ + le_i64(self.created_ts)
    }

    /// The encoding is `DATA_LEN` bytes long.
    pub proof fn lemma_encode_len(&self)
        ensures
            self.encode().len() == Self::DATA_LEN,
    {
        lemma_le_len(0, self.created_ts);
    }

    /// Two records with the same bytes are equal.
    pub proof fn lemma_encode_injective(a: Self, b: Self)
        requires
            a.encode() == b.encode(),
        ensures
            a == b,
    {
        lemma_le_len(0, a.created_ts);
        lemma_le_len(0, b.created_ts);
        let s = a.encode();
        assert(a.plan@ =~= s.subrange(0, 32));
        assert(b.plan@ =~= s.subrange(0, 32));
        assert(a.plan.bytes == b.plan.bytes);
        assert(a.subscriber@ =~= s.subrange(32, 64));
        assert(b.subscriber@ =~= s.subrange(32, 64));
        assert(a.subscriber.bytes == b.subscriber.bytes);
        assert(a.mint@ =~= s.subrange(64, 96));
        assert(b.mint@ =~= s.subrange(64, 96));
        assert(a.mint.bytes == b.mint.bytes);
        assert(le_i64(a.created_ts) =~= s.subrange(96, 104));
        assert(le_i64(b.created_ts) =~= s.subrange(96, 104));
        lemma_le_i64_injective(a.created_ts, b.created_ts);
    }

    /// Decodes the first `DATA_LEN` bytes of `data`.
    pub fn parse(data: &[u8]) -> (d: Self)
        requires
            data@.len() >= Self::DATA_LEN,
        ensures
            d.encode() == data@.subrange(0, Self::DATA_LEN as int),
    {
        let d = SubscriptionCreatedEvent {
            plan: read_address(data, 0),
            subscriber: read_address(data, 32),
            mint: read_address(data, 64),
            created_ts: read_i64(data, 96),
        };
        assert(d.encode() =~= data@.subrange(0, Self::DATA_LEN as int));
        d
    }

    /// Appends the payload to `out`.
    pub fn write_inner(&self, out: &mut Vec<u8>)
        ensures
            final(out)@ == old(out)@ + self.encode(),
    {
        write_address(out, &self.plan);
        write_address(out, &self.subscriber);
        write_address(out, &self.mint);
        write_i64(out, self.created_ts);
        assert(out@ =~= old(out)@ + self.encode());
    }
}


impl SubscriptionCreatedEvent {
    /// The event's discriminator byte.
    pub const DISCRIMINATOR: u8 = 0;

    /// Constructs a new event.
    pub fn new(plan: Address, subscriber: Address, mint: Address, created_ts: i64) -> (e: Self)
        ensures
            e.plan == plan,
            e.subscriber == subscriber,
            e.mint == mint,
            e.created_ts == created_ts,
    {
        SubscriptionCreatedEvent { plan, subscriber, mint, created_ts }
    }

    /// Deserializes a payload of exactly `DATA_LEN` bytes.
    pub fn load(bytes: &[u8]) -> (r: Result<Self, SubscriptionsError>)
        ensures
            match r {
                Ok(e) => e.encode() == bytes@,
                Err(e) => e == SubscriptionsError::InvalidInstructionData,
            },
            r is Ok <==> bytes@.len() == Self::DATA_LEN,
    {
        if bytes.len() != Self::DATA_LEN {
            return Err(SubscriptionsError::InvalidInstructionData);
        }
        let e = Self::parse(bytes);
        assert(bytes@.subrange(0, Self::DATA_LEN as int) =~= bytes@);
        Ok(e)
    }

    /// The emitted bytes: the event tag, the discriminator, then the payload.
    pub open spec fn event_bytes(&self) -> Seq<u8> {
        event_tag() + seq![EventDiscriminators::SubscriptionCreated.byte()] + self.encode()
    }

    /// Serializes the event as it is emitted.
    pub fn to_bytes(&self) -> (v: Vec<u8>)
        ensures
            v@ == self.event_bytes(),
    {
        let mut v: Vec<u8> = event_header(EventDiscriminators::SubscriptionCreated);
        self.write_inner(&mut v);
        v
    }
}

/// Emitted when a subscriber cancels a subscription.
#[derive(Clone, Copy, Debug, PartialEq, Eq)]
pub struct SubscriptionCancelledEvent {
    /// The plan PDA.
    pub plan: Address,
    /// The subscriber.
    pub subscriber: Address,
    /// When the subscription stops being billable.
    pub expires_at_ts: i64,
}

impl SubscriptionCancelledEvent {
    /// Serialized size in bytes.
    pub const DATA_LEN: usize = 72;

    /// The record's bytes.
    pub open spec fn encode(&self) -> Seq<u8> {
        self.plan@ + self.subscriber@ + le_i64(self.expires_at_ts)
    }

    /// The encoding is `DATA_LEN` bytes long.
    pub proof fn lemma_encode_len(&self)
        ensures
            self.encode().len() == Self::DATA_LEN,
    {
        lemma_le_len(0, self.expires_at_ts);
    }

    /// Two records with the same bytes are equal.
    pub proof fn lemma_encode_injective(a: Self, b: Self)
        requires
            a.encode() == b.encode(),
        ensures
            a == b,
    {
        lemma_le_len(0, a.expires_at_ts);
        lemma_le_len(0, b.expires_at_ts);
        let s = a.encode();
        assert(a.plan@ =~= s.subrange(0, 32));
        assert(b.plan@ =~= s.subrange(0, 32));
        assert(a.plan.bytes == b.plan.bytes);
        assert(a.subscriber@ =~= s.subrange(32, 64));
        assert(b.subscriber@ =~= s.subrange(32, 64));
        assert(a.subscriber.bytes == b.subscriber.bytes);
        assert(le_i64(a.expires_at_ts) =~= s.subrange(64, 72));
        assert(le_i64(b.expires_at_ts) =~= s.subrange(64, 72));
        lemma_le_i64_injective(a.expires_at_ts, b.expires_at_ts);
    }

    /// Decodes the first `DATA_LEN` bytes of `data`.
    pub fn parse(data: &[u8]) -> (d: Self)
        requires
            data@.len() >= Self::DATA_LEN,
        ensures
            d.encode() == data@.subrange(0, Self::DATA_LEN as int),
    {
        let d = SubscriptionCancelledEvent {
            plan: read_address(data, 0),
            subscriber: read_address(data, 32),
            expires_at_ts: read_i64(data, 64),
        };
        assert(d.encode() =~= data@.subrange(0, Self::DATA_LEN as int));
        d
    }

    /// Appends the payload to `out`.
    pub fn write_inner(&self, out: &mut Vec<u8>)
        ensures
            final(out)@ == old(out)@ + self.encode(),
    {
        write_address(out, &self.plan);
        write_address(out, &self.subscriber);
        write_i64(out, self.expires_at_ts);
        assert(out@ =~= old(out)@ + self.encode());
    }
}


impl SubscriptionCancelledEvent {
    /// The event's discriminator byte.
    pub const DISCRIMINATOR: u8 = 1;

    /// Constructs a new event.
    pub fn new(plan: Address, subscriber: Address, expires_at_ts: i64) -> (e: Self)
        ensures
            e.plan == plan,
            e.subscriber == subscriber,
            e.expires_at_ts == expires_at_ts,
    {
        SubscriptionCancelledEvent { plan, subscriber, expires_at_ts }
    }

    /// Deserializes a payload of exactly `DATA_LEN` bytes.
    pub fn load(bytes: &[u8]) -> (r: Result<Self, SubscriptionsError>)
        ensures
            match r {
                Ok(e) => e.encode() == bytes@,
                Err(e) => e == SubscriptionsError::InvalidInstructionData,
            },
            r is Ok <==> bytes@.len() == Self::DATA_LEN,
    {
        if bytes.len() != Self::DATA_LEN {
            return Err(SubscriptionsError::InvalidInstructionData);
        }
        let e = Self::parse(bytes);
        assert(bytes@.subrange(0, Self::DATA_LEN as int) =~= bytes@);
        Ok(e)
    }

    /// The emitted bytes: the event tag, the discriminator, then the payload.
    pub open spec fn event_bytes(&self) -> Seq<u8> {
        event_tag() + seq![EventDiscriminators::SubscriptionCancelled.byte()] + self.encode()
    }

    /// Serializes the event as it is emitted.
    pub fn to_bytes(&self) -> (v: Vec<u8>)
        ensures
            v@ == self.event_bytes(),
    {
        let mut v: Vec<u8> = event_header(EventDiscriminators::SubscriptionCancelled);
        self.write_inner(&mut v);
        v
    }
}

/// Emitted when a transfer is pulled against a subscription.
#[derive(Clone, Copy, Debug, PartialEq, Eq)]
pub struct SubscriptionTransferEvent {
    /// The subscription PDA.
    pub subscription: Address,
    /// The plan PDA.
    pub plan: Address,
    /// The subscriber whose token account was debited.
    pub delegator: Address,
    /// The token mint.
    pub mint: Address,
    /// Gross token amount debited from the subscriber.
    pub amount: u64,
    /// Start of the billing period the pull counts toward.
    pub period_start_ts: i64,
    /// End of that billing period.
    pub period_end_ts: i64,
    /// Total pulled in the period, this transfer included.
    pub amount_pulled_in_period: u64,
    /// The receiver wallet.
    pub receiver: Address,
    /// The token account credited; its owner is `receiver`.
    pub receiver_token_account: Address,
    /// Who initiated the pull.
    pub puller: Address,
}

impl SubscriptionTransferEvent {
    /// Serialized size in bytes.
    pub const DATA_LEN: usize = 256;

    /// The record's bytes.
    pub open spec fn encode(&self) -> Seq<u8> {
        self.subscription@ + self.plan@ + self.delegator@ + self.mint@ + le_u64(self.amount) + le_i64(self.period_start_ts) + le_i64(self.period_end_ts) + le_u64(self.amount_pulled_in_period) + self.receiver@ + self.receiver_token_account@ + self.puller@
    }

    /// The encoding is `DATA_LEN` bytes long.
    pub proof fn lemma_encode_len(&self)
        ensures
            self.encode().len() == Self::DATA_LEN,
    {
        lemma_le_len(self.amount, 0);
        lemma_le_len(0, self.period_start_ts);
        lemma_le_len(0, self.period_end_ts);
        lemma_le_len(self.amount_pulled_in_period, 0);
    }

    /// Two records with the same bytes are equal.
    pub proof fn lemma_encode_injective(a: Self, b: Self)
        requires
            a.encode() == b.encode(),
        ensures
            a == b,
    {
        lemma_le_len(a.amount, 0);
        lemma_le_len(0, a.period_start_ts);
        lemma_le_len(0, a.period_end_ts);
        lemma_le_len(a.amount_pulled_in_period, 0);
        lemma_le_len(b.amount, 0);
        lemma_le_len(0, b.period_start_ts);
        lemma_le_len(0, b.period_end_ts);
        lemma_le_len(b.amount_pulled_in_period, 0);
        let s = a.encode();
        assert(a.subscription@ =~= s.subrange(0, 32));
        assert(b.subscription@ =~= s.subrange(0, 32));
        assert(a.subscription.bytes == b.subscription.bytes);
        assert(a.plan@ =~= s.subrange(32, 64));
        assert(b.plan@ =~= s.subrange(32, 64));
        assert(a.plan.bytes == b.plan.bytes);
        assert(a.delegator@ =~= s.subrange(64, 96));
        assert(b.delegator@ =~= s.subrange(64, 96));
        assert(a.delegator.bytes == b.delegator.bytes);
        assert(a.mint@ =~= s.subrange(96, 128));
        assert(b.mint@ =~= s.subrange(96, 128));
        assert(a.mint.bytes == b.mint.bytes);
        assert(le_u64(a.amount) =~= s.subrange(128, 136));
        assert(le_u64(b.amount) =~= s.subrange(128, 136));
        lemma_le_u64_injective(a.amount, b.amount);
        assert(le_i64(a.period_start_ts) =~= s.subrange(136, 144));
        assert(le_i64(b.period_start_ts) =~= s.subrange(136, 144));
        lemma_le_i64_injective(a.period_start_ts, b.period_start_ts);
        assert(le_i64(a.period_end_ts) =~= s.subrange(144, 152));
        assert(le_i64(b.period_end_ts) =~= s.subrange(144, 152));
        lemma_le_i64_injective(a.period_end_ts, b.period_end_ts);
        assert(le_u64(a.amount_pulled_in_period) =~= s.subrange(152, 160));
        assert(le_u64(b.amount_pulled_in_period) =~= s.subrange(152, 160));
        lemma_le_u64_injective(a.amount_pulled_in_period, b.amount_pulled_in_period);
        assert(a.receiver@ =~= s.subrange(160, 192));
        assert(b.receiver@ =~= s.subrange(160, 192));
        assert(a.receiver.bytes == b.receiver.bytes);
        assert(a.receiver_token_account@ =~= s.subrange(192, 224));
        assert(b.receiver_token_account@ =~= s.subrange(192, 224));
        assert(a.receiver_token_account.bytes == b.receiver_token_account.bytes);
        assert(a.puller@ =~= s.subrange(224, 256));
        assert(b.puller@ =~= s.subrange(224, 256));
        assert(a.puller.bytes == b.puller.bytes);
    }

    /// Decodes the first `DATA_LEN` bytes of `data`.
    pub fn parse(data: &[u8]) -> (d: Self)
        requires
            data@.len() >= Self::DATA_LEN,
        ensures
            d.encode() == data@.subrange(0, Self::DATA_LEN as int),
    {
        let d = SubscriptionTransferEvent {
            subscription: read_address(data, 0),
            plan: read_address(data, 32),
            delegator: read_address(data, 64),
            mint: read_address(data, 96),
            amount: read_u64(data, 128),
            period_start_ts: read_i64(data, 136),
            period_end_ts: read_i64(data, 144),
            amount_pulled_in_period: read_u64(data, 152),
            receiver: read_address(data, 160),
            receiver_token_account: read_address(data, 192),
            puller: read_address(data, 224),
        };
        assert(d.encode() =~= data@.subrange(0, Self::DATA_LEN as int));
        d
    }

    /// Appends the payload to `out`.
    pub fn write_inner(&self, out: &mut Vec<u8>)
        ensures
            final(out)@ == old(out)@ + self.encode(),
    {
        write_address(out, &self.subscription);
        write_address(out, &self.plan);
        write_address(out, &self.delegator);
        write_address(out, &self.mint);
        write_u64(out, self.amount);
        write_i64(out, self.period_start_ts);
        write_i64(out, self.period_end_ts);
        write_u64(out, self.amount_pulled_in_period);
        write_address(out, &self.receiver);
        write_address(out, &self.receiver_token_account);
        write_address(out, &self.puller);
        assert(out@ =~= old(out)@ + self.encode());
    }
}


impl SubscriptionTransferEvent {
    /// The event's discriminator byte.
    pub const DISCRIMINATOR: u8 = 2;

    /// Constructs a new event.
    pub fn new(subscription: Address, plan: Address, delegator: Address, mint: Address, amount: u64, period_start_ts: i64, period_end_ts: i64, amount_pulled_in_period: u64, receiver: Address, receiver_token_account: Address, puller: Address) -> (e: Self)
        ensures
            e.subscription == subscription,
            e.plan == plan,
            e.delegator == delegator,
            e.mint == mint,
            e.amount == amount,
            e.period_start_ts == period_start_ts,
            e.period_end_ts == period_end_ts,
            e.amount_pulled_in_period == amount_pulled_in_period,
            e.receiver == receiver,
            e.receiver_token_account == receiver_token_account,
            e.puller == puller,
    {
        SubscriptionTransferEvent { subscription, plan, delegator, mint, amount, period_start_ts, period_end_ts, amount_pulled_in_period, receiver, receiver_token_account, puller }
    }

    /// Deserializes a payload of exactly `DATA_LEN` bytes.
    pub fn load(bytes: &[u8]) -> (r: Result<Self, SubscriptionsError>)
        ensures
            match r {
                Ok(e) => e.encode() == bytes@,
                Err(e) => e == SubscriptionsError::InvalidInstructionData,
            },
            r is Ok <==> bytes@.len() == Self::DATA_LEN,
    {
        if bytes.len() != Self::DATA_LEN {
            return Err(SubscriptionsError::InvalidInstructionData);
        }
        let e = Self::parse(bytes);
        assert(bytes@.subrange(0, Self::DATA_LEN as int) =~= bytes@);
        Ok(e)
    }

    /// The emitted bytes: the event tag, the discriminator, then the payload.
    pub open spec fn event_bytes(&self) -> Seq<u8> {
        event_tag() + seq![EventDiscriminators::SubscriptionTransfer.byte()] + self.encode()
    }

    /// Serializes the event as it is emitted.
    pub fn to_bytes(&self) -> (v: Vec<u8>)
        ensures
            v@ == self.event_bytes(),
    {
        let mut v: Vec<u8> = event_header(EventDiscriminators::SubscriptionTransfer);
        self.write_inner(&mut v);
        v
    }
}

/// Emitted when a transfer is executed against a fixed delegation.
#[derive(Clone, Copy, Debug, PartialEq, Eq)]
pub struct FixedTransferEvent {
    /// The fixed delegation PDA.
    pub delegation: Address,
    /// The token owner whose token account was debited.
    pub delegator: Address,
    /// The party that initiated the transfer.
    pub delegatee: Address,
    /// The token mint.
    pub mint: Address,
    /// Gross token amount debited from the delegator.
    pub amount: u64,
    /// Remaining allowance after this transfer.
    pub remaining_amount: u64,
    /// The receiver wallet.
    pub receiver: Address,
    /// The token account credited; its owner is `receiver`.
    pub receiver_token_account: Address,
}

impl FixedTransferEvent {
    /// Serialized size in bytes.
    pub const DATA_LEN: usize = 208;

    /// The record's bytes.
    pub open spec fn encode(&self) -> Seq<u8> {
        self.delegation@ + self.delegator@ + self.delegatee@ + self.mint@ + le_u64(self.amount) + le_u64(self.remaining_amount) + self.receiver@ + self.receiver_token_account@
    }

    /// The encoding is `DATA_LEN` bytes long.
    pub proof fn lemma_encode_len(&self)
        ensures
            self.encode().len() == Self::DATA_LEN,
    {
        lemma_le_len(self.amount, 0);
        lemma_le_len(self.remaining_amount, 0);
    }

    /// Two records with the same bytes are equal.
    pub proof fn lemma_encode_injective(a: Self, b: Self)
        requires
            a.encode() == b.encode(),
        ensures
            a == b,
    {
        lemma_le_len(a.amount, 0);
        lemma_le_len(a.remaining_amount, 0);
        lemma_le_len(b.amount, 0);
        lemma_le_len(b.remaining_amount, 0);
        let s = a.encode();
        assert(a.delegation@ =~= s.subrange(0, 32));
        assert(b.delegation@ =~= s.subrange(0, 32));
        assert(a.delegation.bytes == b.delegation.bytes);
        assert(a.delegator@ =~= s.subrange(32, 64));
        assert(b.delegator@ =~= s.subrange(32, 64));
        assert(a.delegator.bytes == b.delegator.bytes);
        assert(a.delegatee@ =~= s.subrange(64, 96));
        assert(b.delegatee@ =~= s.subrange(64, 96));
        assert(a.delegatee.bytes == b.delegatee.bytes);
        assert(a.mint@ =~= s.subrange(96, 128));
        assert(b.mint@ =~= s.subrange(96, 128));
        assert(a.mint.bytes == b.mint.bytes);
        assert(le_u64(a.amount) =~= s.subrange(128, 136));
        assert(le_u64(b.amount) =~= s.subrange(128, 136));
        lemma_le_u64_injective(a.amount, b.amount);
        assert(le_u64(a.remaining_amount) =~= s.subrange(136, 144));
        assert(le_u64(b.remaining_amount) =~= s.subrange(136, 144));
        lemma_le_u64_injective(a.remaining_amount, b.remaining_amount);
        assert(a.receiver@ =~= s.subrange(144, 176));
        assert(b.receiver@ =~= s.subrange(144, 176));
        assert(a.receiver.bytes == b.receiver.bytes);
        assert(a.receiver_token_account@ =~= s.subrange(176, 208));
        assert(b.receiver_token_account@ =~= s.subrange(176, 208));
        assert(a.receiver_token_account.bytes == b.receiver_token_account.bytes);
    }

    /// Decodes the first `DATA_LEN` bytes of `data`.
    pub fn parse(data: &[u8]) -> (d: Self)
        requires
            data@.len() >= Self::DATA_LEN,
        ensures
            d.encode() == data@.subrange(0, Self::DATA_LEN as int),
    {
        let d = FixedTransferEvent {
            delegation: read_address(data, 0),
            delegator: read_address(data, 32),
            delegatee: read_address(data, 64),
            mint: read_address(data, 96),
            amount: read_u64(data, 128),
            remaining_amount: read_u64(data, 136),
            receiver: read_address(data, 144),
            receiver_token_account: read_address(data, 176),
        };
        assert(d.encode() =~= data@.subrange(0, Self::DATA_LEN as int));
        d
    }

    /// Appends the payload to `out`.
    pub fn write_inner(&self, out: &mut Vec<u8>)
        ensures
            final(out)@ == old(out)@ + self.encode(),
    {
        write_address(out, &self.delegation);
        write_address(out, &self.delegator);
        write_address(out, &self.delegatee);
        write_address(out, &self.mint);
        write_u64(out, self.amount);
        write_u64(out, self.remaining_amount);
        write_address(out, &self.receiver);
        write_address(out, &self.receiver_token_account);
        assert(out@ =~= old(out)@ + self.encode());
    }
}


impl FixedTransferEvent {
    /// The event's discriminator byte.
    pub const DISCRIMINATOR: u8 = 3;

    /// Constructs a new event.
    pub fn new(delegation: Address, delegator: Address, delegatee: Address, mint: Address, amount: u64, remaining_amount: u64, receiver: Address, receiver_token_account: Address) -> (e: Self)
        ensures
            e.delegation == delegation,
            e.delegator == delegator,
            e.delegatee == delegatee,
            e.mint == mint,
            e.amount == amount,
            e.remaining_amount == remaining_amount,
            e.receiver == receiver,
            e.receiver_token_account == receiver_token_account,
    {
        FixedTransferEvent { delegation, delegator, delegatee, mint, amount, remaining_amount, receiver, receiver_token_account }
    }

    /// Deserializes a payload of exactly `DATA_LEN` bytes.
    pub fn load(bytes: &[u8]) -> (r: Result<Self, SubscriptionsError>)
        ensures
            match r {
                Ok(e) => e.encode() == bytes@,
                Err(e) => e == SubscriptionsError::InvalidInstructionData,
            },
            r is Ok <==> bytes@.len() == Self::DATA_LEN,
    {
        if bytes.len() != Self::DATA_LEN {
            return Err(SubscriptionsError::InvalidInstructionData);
        }
        let e = Self::parse(bytes);
        assert(bytes@.subrange(0, Self::DATA_LEN as int) =~= bytes@);
        Ok(e)
    }

    /// The emitted bytes: the event tag, the discriminator, then the payload.
    pub open spec fn event_bytes(&self) -> Seq<u8> {
        event_tag() + seq![EventDiscriminators::FixedTransfer.byte()] + self.encode()
    }

    /// Serializes the event as it is emitted.
    pub fn to_bytes(&self) -> (v: Vec<u8>)
        ensures
            v@ == self.event_bytes(),
    {
        let mut v: Vec<u8> = event_header(EventDiscriminators::FixedTransfer);
        self.write_inner(&mut v);
        v
    }
}

/// Emitted when a transfer is executed against a recurring delegation.
#[derive(Clone, Copy, Debug, PartialEq, Eq)]
pub struct RecurringTransferEvent {
    /// The recurring delegation PDA.
    pub delegation: Address,
    /// The token owner whose token account was debited.
    pub delegator: Address,
    /// The party that initiated the transfer.
    pub delegatee: Address,
    /// The token mint.
    pub mint: Address,
    /// Gross token amount debited from the delegator.
    pub amount: u64,
    /// Start of the period the pull counts toward.
    pub period_start_ts: i64,
    /// End of that period.
    pub period_end_ts: i64,
    /// Total pulled in the period, this transfer included.
    pub amount_pulled_in_period: u64,
    /// The receiver wallet.
    pub receiver: Address,
}

impl RecurringTransferEvent {
    /// Serialized size in bytes.
    pub const DATA_LEN: usize = 192;

    /// The record's bytes.
    pub open spec fn encode(&self) -> Seq<u8> {
        self.delegation@ + self.delegator@ + self.delegatee@ + self.mint@ + le_u64(self.amount) + le_i64(self.period_start_ts) + le_i64(self.period_end_ts) + le_u64(self.amount_pulled_in_period) + self.receiver@
    }

    /// The encoding is `DATA_LEN` bytes long.
    pub proof fn lemma_encode_len(&self)
        ensures
            self.encode().len() == Self::DATA_LEN,
    {
        lemma_le_len(self.amount, 0);
        lemma_le_len(0, self.period_start_ts);
        lemma_le_len(0, self.period_end_ts);
        lemma_le_len(self.amount_pulled_in_period, 0);
    }

    /// Two records with the same bytes are equal.
    pub proof fn lemma_encode_injective(a: Self, b: Self)
        requires
            a.encode() == b.encode(),
        ensures
            a == b,
    {
        lemma_le_len(a.amount, 0);
        lemma_le_len(0, a.period_start_ts);
        lemma_le_len(0, a.period_end_ts);
        lemma_le_len(a.amount_pulled_in_period, 0);
        lemma_le_len(b.amount, 0);
        lemma_le_len(0, b.period_start_ts);
        lemma_le_len(0, b.period_end_ts);
        lemma_le_len(b.amount_pulled_in_period, 0);
        let s = a.encode();
        assert(a.delegation@ =~= s.subrange(0, 32));
        assert(b.delegation@ =~= s.subrange(0, 32));
        assert(a.delegation.bytes == b.delegation.bytes);
        assert(a.delegator@ =~= s.subrange(32, 64));
        assert(b.delegator@ =~= s.subrange(32, 64));
        assert(a.delegator.bytes == b.delegator.bytes);
        assert(a.delegatee@ =~= s.subrange(64, 96));
        assert(b.delegatee@ =~= s.subrange(64, 96));
        assert(a.delegatee.bytes == b.delegatee.bytes);
        assert(a.mint@ =~= s.subrange(96, 128));
        assert(b.mint@ =~= s.subrange(96, 128));
        assert(a.mint.bytes == b.mint.bytes);
        assert(le_u64(a.amount) =~= s.subrange(128, 136));
        assert(le_u64(b.amount) =~= s.subrange(128, 136));
        lemma_le_u64_injective(a.amount, b.amount);
        assert(le_i64(a.period_start_ts) =~= s.subrange(136, 144));
        assert(le_i64(b.period_start_ts) =~= s.subrange(136, 144));
        lemma_le_i64_injective(a.period_start_ts, b.period_start_ts);
        assert(le_i64(a.period_end_ts) =~= s.subrange(144, 152));
        assert(le_i64(b.period_end_ts) =~= s.subrange(144, 152));
        lemma_le_i64_injective(a.period_end_ts, b.period_end_ts);
        assert(le_u64(a.amount_pulled_in_period) =~= s.subrange(152, 160));
        assert(le_u64(b.amount_pulled_in_period) =~= s.subrange(152, 160));
        lemma_le_u64_injective(a.amount_pulled_in_period, b.amount_pulled_in_period);
        assert(a.receiver@ =~= s.subrange(160, 192));
        assert(b.receiver@ =~= s.subrange(160, 192));
        assert(a.receiver.bytes == b.receiver.bytes);
    }

    /// Decodes the first `DATA_LEN` bytes of `data`.
    pub fn parse(data: &[u8]) -> (d: Self)
        requires
            data@.len() >= Self::DATA_LEN,
        ensures
            d.encode() == data@.subrange(0, Self::DATA_LEN as int),
    {
        let d = RecurringTransferEvent {
            delegation: read_address(data, 0),
            delegator: read_address(data, 32),
            delegatee: read_address(data, 64),
            mint: read_address(data, 96),
            amount: read_u64(data, 128),
            period_start_ts: read_i64(data, 136),
            period_end_ts: read_i64(data, 144),
            amount_pulled_in_period: read_u64(data, 152),
            receiver: read_address(data, 160),
        };
        assert(d.encode() =~= data@.subrange(0, Self::DATA_LEN as int));
        d
    }

    /// Appends the payload to `out`.
    pub fn write_inner(&self, out: &mut Vec<u8>)
        ensures
            final(out)@ == old(out)@ + self.encode(),
    {
        write_address(out, &self.delegation);
        write_address(out, &self.delegator);
        write_address(out, &self.delegatee);
        write_address(out, &self.mint);
        write_u64(out, self.amount);
        write_i64(out, self.period_start_ts);
        write_i64(out, self.period_end_ts);
        write_u64(out, self.amount_pulled_in_period);
        write_address(out, &self.receiver);
        assert(out@ =~= old(out)@ + self.encode());
    }
}

impl RecurringTransferEvent {
    /// The event's discriminator byte.
    pub const DISCRIMINATOR: u8 = 4;

    /// Constructs a new event.
    pub fn new(delegation: Address, delegator: Address, delegatee: Address, mint: Address, amount: u64, period_start_ts: i64, period_end_ts: i64, amount_pulled_in_period: u64, receiver: Address) -> (e: Self)
        ensures
            e.delegation == delegation,
            e.delegator == delegator,
            e.delegatee == delegatee,
            e.mint == mint,
            e.amount == amount,
            e.period_start_ts == period_start_ts,
            e.period_end_ts == period_end_ts,
            e.amount_pulled_in_period == amount_pulled_in_period,
            e.receiver == receiver,
    {
        RecurringTransferEvent { delegation, delegator, delegatee, mint, amount, period_start_ts, period_end_ts, amount_pulled_in_period, receiver }
    }

    /// Deserializes a payload of exactly `DATA_LEN` bytes.
    pub fn load(bytes: &[u8]) -> (r: Result<Self, SubscriptionsError>)
        ensures
            match r {
                Ok(e) => e.encode() == bytes@,
                Err(e) => e == SubscriptionsError::InvalidInstructionData,
            },
            r is Ok <==> bytes@.len() == Self::DATA_LEN,
    {
        if bytes.len() != Self::DATA_LEN {
            return Err(SubscriptionsError::InvalidInstructionData);
        }
        let e = Self::parse(bytes);
        assert(bytes@.subrange(0, Self::DATA_LEN as int) =~= bytes@);
        Ok(e)
    }

    /// The emitted bytes: the event tag, the discriminator, then the payload.
    pub open spec fn event_bytes(&self) -> Seq<u8> {
        event_tag() + seq![EventDiscriminators::RecurringTransfer.byte()] + self.encode()
    }

    /// Serializes the event as it is emitted.
    pub fn to_bytes(&self) -> (v: Vec<u8>)
        ensures
            v@ == self.event_bytes(),
    {
        let mut v: Vec<u8> = event_header(EventDiscriminators::RecurringTransfer);
        self.write_inner(&mut v);
        v
    }
}

/// Emitted when a cancelled subscription is resumed.
#[derive(Clone, Copy, Debug, PartialEq, Eq)]
pub struct SubscriptionResumedEvent {
    /// The plan PDA.
    pub plan: Address,
    /// The subscriber.
    pub subscriber: Address,
    /// When the subscription was resumed.
    pub resumed_ts: i64,
}

impl SubscriptionResumedEvent {
    /// Serialized size in bytes.
    pub const DATA_LEN: usize = 72;

    /// The record's bytes.
    pub open spec fn encode(&self) -> Seq<u8> {
        self.plan@ + self.subscriber@ + le_i64(self.resumed_ts)
    }

    /// The encoding is `DATA_LEN` bytes long.
    pub proof fn lemma_encode_len(&self)
        ensures
            self.encode().len() == Self::DATA_LEN,
    {
        lemma_le_len(0, self.resumed_ts);
    }

    /// Two records with the same bytes are equal.
    pub proof fn lemma_encode_injective(a: Self, b: Self)
        requires
            a.encode() == b.encode(),
        ensures
            a == b,
    {
        lemma_le_len(0, a.resumed_ts);
        lemma_le_len(0, b.resumed_ts);
        let s = a.encode();
        assert(a.plan@ =~= s.subrange(0, 32));
        assert(b.plan@ =~= s.subrange(0, 32));
        assert(a.plan.bytes == b.plan.bytes);
        assert(a.subscriber@ =~= s.subrange(32, 64));
        assert(b.subscriber@ =~= s.subrange(32, 64));
        assert(a.subscriber.bytes == b.subscriber.bytes);
        assert(le_i64(a.resumed_ts) =~= s.subrange(64, 72));
        assert(le_i64(b.resumed_ts) =~= s.subrange(64, 72));
        lemma_le_i64_injective(a.resumed_ts, b.resumed_ts);
    }

    /// Decodes the first `DATA_LEN` bytes of `data`.
    pub fn parse(data: &[u8]) -> (d: Self)
        requires
            data@.len() >= Self::DATA_LEN,
        ensures
            d.encode() == data@.subrange(0, Self::DATA_LEN as int),
    {
        let d = SubscriptionResumedEvent {
            plan: read_address(data, 0),
            subscriber: read_address(data, 32),
            resumed_ts: read_i64(data, 64),
        };
        assert(d.encode() =~= data@.subrange(0, Self::DATA_LEN as int));
        d
    }

    /// Appends the payload to `out`.
    pub fn write_inner(&self, out: &mut Vec<u8>)
        ensures
            final(out)@ == old(out)@ + self.encode(),
    {
        write_address(out, &self.plan);
        write_address(out, &self.subscriber);
        write_i64(out, self.resumed_ts);
        assert(out@ =~= old(out)@ + self.encode());
    }
}


impl SubscriptionResumedEvent {
    /// The event's discriminator byte.
    pub const DISCRIMINATOR: u8 = 5;

    /// Constructs a new event.
    pub fn new(plan: Address, subscriber: Address, resumed_ts: i64) -> (e: Self)
        ensures
            e.plan == plan,
            e.subscriber == subscriber,
            e.resumed_ts == resumed_ts,
    {
        SubscriptionResumedEvent { plan, subscriber, resumed_ts }
    }

    /// Deserializes a payload of exactly `DATA_LEN` bytes.
    pub fn load(bytes: &[u8]) -> (r: Result<Self, SubscriptionsError>)
        ensures
            match r {
                Ok(e) => e.encode() == bytes@,
                Err(e) => e == SubscriptionsError::InvalidInstructionData,
            },
            r is Ok <==> bytes@.len() == Self::DATA_LEN,
    {
        if bytes.len() != Self::DATA_LEN {
            return Err(SubscriptionsError::InvalidInstructionData);
        }
        let e = Self::parse(bytes);
        assert(bytes@.subrange(0, Self::DATA_LEN as int) =~= bytes@);
        Ok(e)
    }

    /// The emitted bytes: the event tag, the discriminator, then the payload.
    pub open spec fn event_bytes(&self) -> Seq<u8> {
        event_tag() + seq![EventDiscriminators::SubscriptionResumed.byte()] + self.encode()
    }

    /// Serializes the event as it is emitted.
    pub fn to_bytes(&self) -> (v: Vec<u8>)
        ensures
            v@ == self.event_bytes(),
    {
        let mut v: Vec<u8> = event_header(EventDiscriminators::SubscriptionResumed);
        self.write_inner(&mut v);
        v
    }
}

/// Emitted when a plan is updated.
#[derive(Clone, Copy, Debug, PartialEq, Eq)]
pub struct PlanUpdatedEvent {
    /// The plan PDA.
    pub plan: Address,
    /// The plan owner.
    pub owner: Address,
    /// The plan status byte after the update.
    pub status: u8,
    /// The plan end after the update; `0` means none.
    pub end_ts: i64,
    /// The authorized pullers after the update.
    pub pullers: [Address; 4],
}

impl PlanUpdatedEvent {
    /// Serialized size in bytes.
    pub const DATA_LEN: usize = 201;

    /// The record's bytes.
    pub open spec fn encode(&self) -> Seq<u8> {
        self.plan@ + self.owner@ + seq![self.status] + le_i64(self.end_ts) + addresses_bytes(self.pullers)
    }

    /// The encoding is `DATA_LEN` bytes long.
    pub proof fn lemma_encode_len(&self)
        ensures
            self.encode().len() == Self::DATA_LEN,
    {
        lemma_le_len(0, self.end_ts);
        lemma_addresses_bytes_len(self.pullers);
    }

    /// Two records with the same bytes are equal.
    pub proof fn lemma_encode_injective(a: Self, b: Self)
        requires
            a.encode() == b.encode(),
        ensures
            a == b,
    {
        lemma_le_len(0, a.end_ts);
        lemma_addresses_bytes_len(a.pullers);
        lemma_le_len(0, b.end_ts);
        lemma_addresses_bytes_len(b.pullers);
        let s = a.encode();
        assert(a.plan@ =~= s.subrange(0, 32));
        assert(b.plan@ =~= s.subrange(0, 32));
        assert(a.plan.bytes == b.plan.bytes);
        assert(a.owner@ =~= s.subrange(32, 64));
        assert(b.owner@ =~= s.subrange(32, 64));
        assert(a.owner.bytes == b.owner.bytes);
        assert(s[64] == a.status && s[64] == b.status);
        assert(le_i64(a.end_ts) =~= s.subrange(65, 73));
        assert(le_i64(b.end_ts) =~= s.subrange(65, 73));
        lemma_le_i64_injective(a.end_ts, b.end_ts);
        assert(addresses_bytes(a.pullers) =~= s.subrange(73, 201));
        assert(addresses_bytes(b.pullers) =~= s.subrange(73, 201));
        lemma_addresses_bytes_injective(a.pullers, b.pullers);
    }

    /// Decodes the first `DATA_LEN` bytes of `data`.
    pub fn parse(data: &[u8]) -> (d: Self)
        requires
            data@.len() >= Self::DATA_LEN,
        ensures
            d.encode() == data@.subrange(0, Self::DATA_LEN as int),
    {
        let d = PlanUpdatedEvent {
            plan: read_address(data, 0),
            owner: read_address(data, 32),
            status: data[64],
            end_ts: read_i64(data, 65),
            pullers: read_addresses(data, 73),
        };
        assert(d.encode() =~= data@.subrange(0, Self::DATA_LEN as int));
        d
    }

    /// Appends the payload to `out`.
    pub fn write_inner(&self, out: &mut Vec<u8>)
        ensures
            final(out)@ == old(out)@ + self.encode(),
    {
        write_address(out, &self.plan);
        write_address(out, &self.owner);
        out.push(self.status);
        write_i64(out, self.end_ts);
        write_addresses(out, &self.pullers);
        assert(out@ =~= old(out)@ + self.encode());
    }
}


impl PlanUpdatedEvent {
    /// The event's discriminator byte.
    pub const DISCRIMINATOR: u8 = 6;

    /// Constructs a new event.
    pub fn new(plan: Address, owner: Address, status: u8, end_ts: i64, pullers: [Address; 4]) -> (e: Self)
        ensures
            e.plan == plan,
            e.owner == owner,
            e.status == status,
            e.end_ts == end_ts,
            e.pullers == pullers,
    {
        PlanUpdatedEvent { plan, owner, status, end_ts, pullers }
    }

    /// Deserializes a payload of exactly `DATA_LEN` bytes.
    pub fn load(bytes: &[u8]) -> (r: Result<Self, SubscriptionsError>)
        ensures
            match r {
                Ok(e) => e.encode() == bytes@,
                Err(e) => e == SubscriptionsError::InvalidInstructionData,
            },
            r is Ok <==> bytes@.len() == Self::DATA_LEN,
    {
        if bytes.len() != Self::DATA_LEN {
            return Err(SubscriptionsError::InvalidInstructionData);
        }
        let e = Self::parse(bytes);
        assert(bytes@.subrange(0, Self::DATA_LEN as int) =~= bytes@);
        Ok(e)
    }

    /// The emitted bytes: the event tag, the discriminator, then the payload.
    pub open spec fn event_bytes(&self) -> Seq<u8> {
        event_tag() + seq![EventDiscriminators::PlanUpdated.byte()] + self.encode()
    }

    /// Serializes the event as it is emitted.
    pub fn to_bytes(&self) -> (v: Vec<u8>)
        ensures
            v@ == self.event_bytes(),
    {
        let mut v: Vec<u8> = event_header(EventDiscriminators::PlanUpdated);
        self.write_inner(&mut v);
        v
    }
}

/// Emitted when the single draw of an up-to delegation is made.
#[derive(Clone, Copy, Debug, PartialEq, Eq)]
pub struct UpToTransferEvent {
    /// The up-to delegation PDA.
    pub delegation: Address,
    /// The token owner whose token account was debited.
    pub delegator: Address,
    /// The party that initiated the draw.
    pub delegatee: Address,
    /// The token mint.
    pub mint: Address,
    /// Gross token amount debited.
    pub amount: u64,
    /// The bound recipient wallet.
    pub recipient: Address,
    /// The token account credited; its owner is `recipient`.
    pub receiver_token_account: Address,
}

impl UpToTransferEvent {
    /// Serialized size in bytes.
    pub const DATA_LEN: usize = 200;

    /// The record's bytes.
    pub open spec fn encode(&self) -> Seq<u8> {
        self.delegation@ + self.delegator@ + self.delegatee@ + self.mint@ + le_u64(self.amount) + self.recipient@ + self.receiver_token_account@
    }

    /// The encoding is `DATA_LEN` bytes long.
    pub proof fn lemma_encode_len(&self)
        ensures
            self.encode().len() == Self::DATA_LEN,
    {
        lemma_le_len(self.amount, 0);
    }

    /// Two records with the same bytes are equal.
    pub proof fn lemma_encode_injective(a: Self, b: Self)
        requires
            a.encode() == b.encode(),
        ensures
            a == b,
    {
        lemma_le_len(a.amount, 0);
        lemma_le_len(b.amount, 0);
        let s = a.encode();
        assert(a.delegation@ =~= s.subrange(0, 32));
        assert(b.delegation@ =~= s.subrange(0, 32));
        assert(a.delegation.bytes == b.delegation.bytes);
        assert(a.delegator@ =~= s.subrange(32, 64));
        assert(b.delegator@ =~= s.subrange(32, 64));
        assert(a.delegator.bytes == b.delegator.bytes);
        assert(a.delegatee@ =~= s.subrange(64, 96));
        assert(b.delegatee@ =~= s.subrange(64, 96));
        assert(a.delegatee.bytes == b.delegatee.bytes);
        assert(a.mint@ =~= s.subrange(96, 128));
        assert(b.mint@ =~= s.subrange(96, 128));
        assert(a.mint.bytes == b.mint.bytes);
        assert(le_u64(a.amount) =~= s.subrange(128, 136));
        assert(le_u64(b.amount) =~= s.subrange(128, 136));
        lemma_le_u64_injective(a.amount, b.amount);
        assert(a.recipient@ =~= s.subrange(136, 168));
        assert(b.recipient@ =~= s.subrange(136, 168));
        assert(a.recipient.bytes == b.recipient.bytes);
        assert(a.receiver_token_account@ =~= s.subrange(168, 200));
        assert(b.receiver_token_account@ =~= s.subrange(168, 200));
        assert(a.receiver_token_account.bytes == b.receiver_token_account.bytes);
    }

    /// Decodes the first `DATA_LEN` bytes of `data`.
    pub fn parse(data: &[u8]) -> (d: Self)
        requires
            data@.len() >= Self::DATA_LEN,
        ensures
            d.encode() == data@.subrange(0, Self::DATA_LEN as int),
    {
        let d = UpToTransferEvent {
            delegation: read_address(data, 0),
            delegator: read_address(data, 32),
            delegatee: read_address(data, 64),
            mint: read_address(data, 96),
            amount: read_u64(data, 128),
            recipient: read_address(data, 136),
            receiver_token_account: read_address(data, 168),
        };
        assert(d.encode() =~= data@.subrange(0, Self::DATA_LEN as int));
        d
    }

    /// Appends the payload to `out`.
    pub fn write_inner(&self, out: &mut Vec<u8>)
        ensures
            final(out)@ == old(out)@ + self.encode(),
    {
        write_address(out, &self.delegation);
        write_address(out, &self.delegator);
        write_address(out, &self.delegatee);
        write_address(out, &self.mint);
        write_u64(out, self.amount);
        write_address(out, &self.recipient);
        write_address(out, &self.receiver_token_account);
        assert(out@ =~= old(out)@ + self.encode());
    }
}


impl UpToTransferEvent {
    /// The event's discriminator byte.
    pub const DISCRIMINATOR: u8 = 7;

    /// Constructs a new event.
    pub fn new(delegation: Address, delegator: Address, delegatee: Address, mint: Address, amount: u64, recipient: Address, receiver_token_account: Address) -> (e: Self)
        ensures
            e.delegation == delegation,
            e.delegator == delegator,
            e.delegatee == delegatee,
            e.mint == mint,
            e.amount == amount,
            e.recipient == recipient,
            e.receiver_token_account == receiver_token_account,
    {
        UpToTransferEvent { delegation, delegator, delegatee, mint, amount, recipient, receiver_token_account }
    }

    /// Deserializes a payload of exactly `DATA_LEN` bytes.
    pub fn load(bytes: &[u8]) -> (r: Result<Self, SubscriptionsError>)
        ensures
            match r {
                Ok(e) => e.encode() == bytes@,
                Err(e) => e == SubscriptionsError::InvalidInstructionData,
            },
            r is Ok <==> bytes@.len() == Self::DATA_LEN,
    {
        if bytes.len() != Self::DATA_LEN {
            return Err(SubscriptionsError::InvalidInstructionData);
        }
        let e = Self::parse(bytes);
        assert(bytes@.subrange(0, Self::DATA_LEN as int) =~= bytes@);
        Ok(e)
    }

    /// The emitted bytes: the event tag, the discriminator, then the payload.
    pub open spec fn event_bytes(&self) -> Seq<u8> {
        event_tag() + seq![EventDiscriminators::UpToTransfer.byte()] + self.encode()
    }

    /// Serializes the event as it is emitted.
    pub fn to_bytes(&self) -> (v: Vec<u8>)
        ensures
            v@ == self.event_bytes(),
    {
        let mut v: Vec<u8> = event_header(EventDiscriminators::UpToTransfer);
        self.write_inner(&mut v);
        v
    }
}

/// A decoded event.
#[derive(Clone, Copy, Debug, PartialEq, Eq)]
pub enum Event {
    /// A [`SubscriptionCreatedEvent`].
    SubscriptionCreated(SubscriptionCreatedEvent),
    /// A [`SubscriptionCancelledEvent`].
    SubscriptionCancelled(SubscriptionCancelledEvent),
    /// A [`SubscriptionTransferEvent`].
    SubscriptionTransfer(SubscriptionTransferEvent),
    /// A [`FixedTransferEvent`].
    FixedTransfer(FixedTransferEvent),
    /// A [`RecurringTransferEvent`].
    RecurringTransfer(RecurringTransferEvent),
    /// A [`SubscriptionResumedEvent`].
    SubscriptionResumed(SubscriptionResumedEvent),
    /// A [`PlanUpdatedEvent`].
    PlanUpdated(PlanUpdatedEvent),
    /// An [`UpToTransferEvent`].
    UpToTransfer(UpToTransferEvent),
}

/// What decoding `data` gives: the event its payload encodes, or why it is
/// refused.
pub open spec fn decode_verdict(data: Seq<u8>) -> Result<Event, SubscriptionsError> {
    if data.len() < EVENT_DISCRIMINATOR_LEN || data.subrange(0, 8) != event_tag() {
        Err(SubscriptionsError::InvalidEventTag)
    } else {
        let d = data[8];
        let p = data.subrange(9, data.len() as int);
        if d == 0 {
            if p.len() != SubscriptionCreatedEvent::DATA_LEN {
                Err(SubscriptionsError::InvalidInstructionData)
            } else {
                Ok(Event::SubscriptionCreated(choose|e: SubscriptionCreatedEvent| e.encode() == p))
            }
        } else if d == 1 {
            if p.len() != SubscriptionCancelledEvent::DATA_LEN {
                Err(SubscriptionsError::InvalidInstructionData)
            } else {
                Ok(Event::SubscriptionCancelled(choose|e: SubscriptionCancelledEvent| e.encode() == p))
            }
        } else if d == 2 {
            if p.len() != SubscriptionTransferEvent::DATA_LEN {
                Err(SubscriptionsError::InvalidInstructionData)
            } else {
                Ok(Event::SubscriptionTransfer(choose|e: SubscriptionTransferEvent| e.encode() == p))
            }
        } else if d == 3 {
            if p.len() != FixedTransferEvent::DATA_LEN {
                Err(SubscriptionsError::InvalidInstructionData)
            } else {
                Ok(Event::FixedTransfer(choose|e: FixedTransferEvent| e.encode() == p))
            }
        } else if d == 4 {
            if p.len() != RecurringTransferEvent::DATA_LEN {
                Err(SubscriptionsError::InvalidInstructionData)
            } else {
                Ok(Event::RecurringTransfer(choose|e: RecurringTransferEvent| e.encode() == p))
            }
        } else if d == 5 {
            if p.len() != SubscriptionResumedEvent::DATA_LEN {
                Err(SubscriptionsError::InvalidInstructionData)
            } else {
                Ok(Event::SubscriptionResumed(choose|e: SubscriptionResumedEvent| e.encode() == p))
            }
        } else if d == 6 {
            if p.len() != PlanUpdatedEvent::DATA_LEN {
                Err(SubscriptionsError::InvalidInstructionData)
            } else {
                Ok(Event::PlanUpdated(choose|e: PlanUpdatedEvent| e.encode() == p))
            }
        } else if d == 7 {
            if p.len() != UpToTransferEvent::DATA_LEN {
                Err(SubscriptionsError::InvalidInstructionData)
            } else {
                Ok(Event::UpToTransfer(choose|e: UpToTransferEvent| e.encode() == p))
            }
        } else {
            Err(SubscriptionsError::InvalidEventDiscriminator)
        }
    }
}

fn has_event_tag(data: &[u8]) -> (b: bool)
    requires
        data@.len() >= 8,
    ensures
        b == (data@.subrange(0, 8) == event_tag()),
{
    let mut i: usize = 0;
    while i < 8
        invariant
            i <= 8,
            data@.len() >= 8,
            forall|j: int| 0 <= j < i ==> data@[j] == event_tag()[j],
        decreases 8 - i,
    {
        if data[i] != EVENT_IX_TAG_LE[i] {
            assert(data@.subrange(0, 8)[i as int] != event_tag()[i as int]);
            return false;
        }
        i = i + 1;
    }
    assert(data@.subrange(0, 8) =~= event_tag());
    true
}

/// Decodes emitted event data (see [`decode_verdict`]).
pub fn decode_event(data: &[u8]) -> (r: Result<Event, SubscriptionsError>)
    ensures
        r == decode_verdict(data@),
{
    if data.len() < EVENT_DISCRIMINATOR_LEN {
        return Err(SubscriptionsError::InvalidEventTag);
    }
    if !has_event_tag(data) {
        return Err(SubscriptionsError::InvalidEventTag);
    }
    let kind = EventDiscriminators::try_from_u8(data[8])?;
    let mut p: Vec<u8> = Vec::new();
    let mut i: usize = 9;
    while i < data.len()
        invariant
            9 <= i <= data@.len(),
            p@ == data@.subrange(9, i as int),
        decreases data@.len() - i,
    {
        p.push(data[i]);
        i = i + 1;
        assert(p@ =~= data@.subrange(9, i as int));
    }
    let ghost ps = data@.subrange(9, data@.len() as int);
    assert(p@ == ps);
    let bytes = p.as_slice();
    match kind {
        EventDiscriminators::SubscriptionCreated => {
            let e = SubscriptionCreatedEvent::load(bytes)?;
            proof {
                let c = choose|c: SubscriptionCreatedEvent| c.encode() == ps;
                SubscriptionCreatedEvent::lemma_encode_injective(c, e);
            }
            Ok(Event::SubscriptionCreated(e))
        },
        EventDiscriminators::SubscriptionCancelled => {
            let e = SubscriptionCancelledEvent::load(bytes)?;
            proof {
                let c = choose|c: SubscriptionCancelledEvent| c.encode() == ps;
                SubscriptionCancelledEvent::lemma_encode_injective(c, e);
            }
            Ok(Event::SubscriptionCancelled(e))
        },
        EventDiscriminators::SubscriptionTransfer => {
            let e = SubscriptionTransferEvent::load(bytes)?;
            proof {
                let c = choose|c: SubscriptionTransferEvent| c.encode() == ps;
                SubscriptionTransferEvent::lemma_encode_injective(c, e);
            }
            Ok(Event::SubscriptionTransfer(e))
        },
        EventDiscriminators::FixedTransfer => {
            let e = FixedTransferEvent::load(bytes)?;
            proof {
                let c = choose|c: FixedTransferEvent| c.encode() == ps;
                FixedTransferEvent::lemma_encode_injective(c, e);
            }
            Ok(Event::FixedTransfer(e))
        },
        EventDiscriminators::SubscriptionResumed => {
            let e = SubscriptionResumedEvent::load(bytes)?;
            proof {
                let c = choose|c: SubscriptionResumedEvent| c.encode() == ps;
                SubscriptionResumedEvent::lemma_encode_injective(c, e);
            }
            Ok(Event::SubscriptionResumed(e))
        },
        EventDiscriminators::PlanUpdated => {
            let e = PlanUpdatedEvent::load(bytes)?;
            proof {
                let c = choose|c: PlanUpdatedEvent| c.encode() == ps;
                PlanUpdatedEvent::lemma_encode_injective(c, e);
            }
            Ok(Event::PlanUpdated(e))
        },
        EventDiscriminators::UpToTransfer => {
            let e = UpToTransferEvent::load(bytes)?;
            proof {
                let c = choose|c: UpToTransferEvent| c.encode() == ps;
                UpToTransferEvent::lemma_encode_injective(c, e);
            }
            Ok(Event::UpToTransfer(e))
        },
        EventDiscriminators::RecurringTransfer => {
            let e = RecurringTransferEvent::load(bytes)?;
            proof {
                let c = choose|c: RecurringTransferEvent| c.encode() == ps;
                RecurringTransferEvent::lemma_encode_injective(c, e);
            }
            Ok(Event::RecurringTransfer(e))
        },
    }
}

impl Event {
    /// The bytes this event is emitted as.
    pub open spec fn event_bytes(self) -> Seq<u8> {
        match self {
            Event::SubscriptionCreated(e) => e.event_bytes(),
            Event::SubscriptionCancelled(e) => e.event_bytes(),
            Event::SubscriptionTransfer(e) => e.event_bytes(),
            Event::FixedTransfer(e) => e.event_bytes(),
            Event::RecurringTransfer(e) => e.event_bytes(),
            Event::SubscriptionResumed(e) => e.event_bytes(),
            Event::PlanUpdated(e) => e.event_bytes(),
            Event::UpToTransfer(e) => e.event_bytes(),
        }
    }
}

/// Decoding what was emitted gives the event back, field for field: every
/// event's bytes carry the event tag and its kind's discriminator, and no
/// other event of that kind has the same payload.
pub proof fn law_event_roundtrip(ev: Event)
    ensures
        decode_verdict(ev.event_bytes()) == Ok::<Event, SubscriptionsError>(ev),
{
    match ev {
        Event::SubscriptionCreated(e) => {
            e.lemma_encode_len();
            let b = e.event_bytes();
            assert(b.subrange(0, 8) =~= event_tag());
            assert(b.subrange(9, b.len() as int) =~= e.encode());
            let c = choose|c: SubscriptionCreatedEvent| c.encode() == e.encode();
            SubscriptionCreatedEvent::lemma_encode_injective(c, e);
        },
        Event::SubscriptionCancelled(e) => {
            e.lemma_encode_len();
            let b = e.event_bytes();
            assert(b.subrange(0, 8) =~= event_tag());
            assert(b.subrange(9, b.len() as int) =~= e.encode());
            let c = choose|c: SubscriptionCancelledEvent| c.encode() == e.encode();
            SubscriptionCancelledEvent::lemma_encode_injective(c, e);
        },
        Event::SubscriptionTransfer(e) => {
            e.lemma_encode_len();
            let b = e.event_bytes();
            assert(b.subrange(0, 8) =~= event_tag());
            assert(b.subrange(9, b.len() as int) =~= e.encode());
            let c = choose|c: SubscriptionTransferEvent| c.encode() == e.encode();
            SubscriptionTransferEvent::lemma_encode_injective(c, e);
        },
        Event::FixedTransfer(e) => {
            e.lemma_encode_len();
            let b = e.event_bytes();
            assert(b.subrange(0, 8) =~= event_tag());
            assert(b.subrange(9, b.len() as int) =~= e.encode());
            let c = choose|c: FixedTransferEvent| c.encode() == e.encode();
            FixedTransferEvent::lemma_encode_injective(c, e);
        },
        Event::RecurringTransfer(e) => {
            e.lemma_encode_len();
            let b = e.event_bytes();
            assert(b.subrange(0, 8) =~= event_tag());
            assert(b.subrange(9, b.len() as int) =~= e.encode());
            let c = choose|c: RecurringTransferEvent| c.encode() == e.encode();
            RecurringTransferEvent::lemma_encode_injective(c, e);
        },
        Event::SubscriptionResumed(e) => {
            e.lemma_encode_len();
            let b = e.event_bytes();
            assert(b.subrange(0, 8) =~= event_tag());
            assert(b.subrange(9, b.len() as int) =~= e.encode());
            let c = choose|c: SubscriptionResumedEvent| c.encode() == e.encode();
            SubscriptionResumedEvent::lemma_encode_injective(c, e);
        },
        Event::PlanUpdated(e) => {
            e.lemma_encode_len();
            let b = e.event_bytes();
            assert(b.subrange(0, 8) =~= event_tag());
            assert(b.subrange(9, b.len() as int) =~= e.encode());
            let c = choose|c: PlanUpdatedEvent| c.encode() == e.encode();
            PlanUpdatedEvent::lemma_encode_injective(c, e);
        },
        Event::UpToTransfer(e) => {
            e.lemma_encode_len();
            let b = e.event_bytes();
            assert(b.subrange(0, 8) =~= event_tag());
            assert(b.subrange(9, b.len() as int) =~= e.encode());
            let c = choose|c: UpToTransferEvent| c.encode() == e.encode();
            UpToTransferEvent::lemma_encode_injective(c, e);
        },
    }
}

} // verus!

