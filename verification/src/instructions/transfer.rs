use vstd::prelude::*;

use crate::address::Address;
use crate::codec::{le_u64, lemma_le_len, lemma_le_u64_injective, read_address, read_u64, write_address, write_u64};
use crate::errors::SubscriptionsError;
use crate::state::common::CURRENT_VERSION;
use crate::state::fixed_delegation::FixedDelegation;
use crate::state::header::Header;
use crate::state::recurring_delegation::RecurringDelegation;
use crate::state::up_to_delegation::UpToDelegation;
use crate::validation::{
    fixed_transfer_outcome, recurring_transfer_outcome, up_to_transfer_outcome,
    validate_fixed_transfer, validate_recurring_transfer, validate_up_to_transfer,
};

verus! {

/// Instruction data of a delegated transfer.
#[derive(Clone, Copy, Debug, PartialEq, Eq)]
pub struct TransferData {
    /// Token amount to transfer.
    pub amount: u64,
    /// The token owner whose account is debited.
    pub delegator: Address,
    /// The token mint.
    pub mint: Address,
}

impl TransferData {
    /// Serialized size in bytes.
    pub const LEN: usize = 72;

    /// The record's bytes.
    pub open spec fn encode(&self) -> Seq<u8> {
        le_u64(self.amount) + self.delegator@ + self.mint@
    }

    /// The encoding is `LEN` bytes long.
    pub proof fn lemma_encode_len(&self)
        ensures
            self.encode().len() == Self::LEN,
    {
        lemma_le_len(self.amount, 0);
    }

    /// Two records with the same bytes are equal.
    pub proof fn lemma_encode_injective(a: Self, b: Self)
        requires
            a.encode() == b.encode(),
        ensures
            a == b,
    {
        lemma_le_len(a.amount, 0);
        lemma_le_len(b.amount, 0);
        let s = a.encode();
        assert(le_u64(a.amount) =~= s.subrange(0, 8));
        assert(le_u64(b.amount) =~= s.subrange(0, 8));
        lemma_le_u64_injective(a.amount, b.amount);
        assert(a.delegator@ =~= s.subrange(8, 40));
        assert(b.delegator@ =~= s.subrange(8, 40));
        assert(a.delegator.bytes == b.delegator.bytes);
        assert(a.mint@ =~= s.subrange(40, 72));
        assert(b.mint@ =~= s.subrange(40, 72));
        assert(a.mint.bytes == b.mint.bytes);
    }

    /// Decodes the first `LEN` bytes of `data`.
    pub fn parse(data: &[u8]) -> (d: Self)
        requires
            data@.len() >= Self::LEN,
        ensures
            d.encode() == data@.subrange(0, Self::LEN as int),
    {
        let d = TransferData {
            amount: read_u64(data, 0),
            delegator: read_address(data, 8),
            mint: read_address(data, 40),
        };
        assert(d.encode() =~= data@.subrange(0, Self::LEN as int));
        d
    }

    /// Deserializes instruction data of exactly `LEN` bytes.
    pub fn load(bytes: &[u8]) -> (r: Result<Self, SubscriptionsError>)
        ensures
            match r {
                Ok(d) => d.encode() == bytes@,
                Err(e) => e == SubscriptionsError::InvalidInstructionData,
            },
            r is Ok <==> bytes@.len() == Self::LEN,
    {
        if bytes.len() != Self::LEN {
            return Err(SubscriptionsError::InvalidInstructionData);
        }
        let d = Self::parse(bytes);
        assert(bytes@.subrange(0, Self::LEN as int) =~= bytes@);
        Ok(d)
    }

    /// Serializes the record.
    pub fn to_bytes(&self) -> (v: Vec<u8>)
        ensures
            v@ == self.encode(),
    {
        let mut v: Vec<u8> = Vec::new();
        write_u64(&mut v, self.amount);
        write_address(&mut v, &self.delegator);
        write_address(&mut v, &self.mint);
        assert(v@ =~= self.encode());
        v
    }
}

/// Authorization checker for delegation transfers.
pub struct Delegation;

impl Delegation {
    /// The verdict of [`check`](Self::check): the delegation must belong to
    /// the claimed delegator and the caller must be its delegatee.
    pub open spec fn verdict(header: Header, expected_delegator: Seq<u8>, caller_delegatee: Seq<u8>) -> Result<
        (),
        SubscriptionsError,
    > {
        if header.delegator@ != expected_delegator || header.delegatee@ != caller_delegatee {
            Err(SubscriptionsError::Unauthorized)
        } else {
            Ok(())
        }
    }

    /// Checks that the delegation belongs to `expected_delegator` and that
    /// `caller_delegatee` is its delegatee.
    pub fn check(header: &Header, expected_delegator: &Address, caller_delegatee: &Address) -> (r:
        Result<(), SubscriptionsError>)
        ensures
            r == Self::verdict(*header, expected_delegator@, caller_delegatee@),
    {
        if !header.delegator.equals(expected_delegator) {
            return Err(SubscriptionsError::Unauthorized);
        }
        if !header.delegatee.equals(caller_delegatee) {
            return Err(SubscriptionsError::Unauthorized);
        }
        Ok(())
    }
}

/// Accounts must be at the current schema version to be spent from.
pub open spec fn version_verdict(version: u8) -> Result<(), SubscriptionsError> {
    if version == CURRENT_VERSION {
        Ok(())
    } else {
        Err(SubscriptionsError::MigrationRequired)
    }
}

/// Checks that an account is at the current schema version.
pub fn check_version(version: u8) -> (r: Result<(), SubscriptionsError>)
    ensures
        r == version_verdict(version),
{
    if version == CURRENT_VERSION {
        Ok(())
    } else {
        Err(SubscriptionsError::MigrationRequired)
    }
}

/// The checks common to every delegated transfer, before the amount rules.
pub open spec fn delegation_binding_verdict(
    header: Header,
    recorded_authority: Seq<u8>,
    recorded_mint: Seq<u8>,
    transfer: TransferData,
    delegatee: Seq<u8>,
    subscription_authority: Seq<u8>,
) -> Result<(), SubscriptionsError> {
    if version_verdict(header.version) is Err {
        version_verdict(header.version)
    } else if Delegation::verdict(header, transfer.delegator@, delegatee) is Err {
        Delegation::verdict(header, transfer.delegator@, delegatee)
    } else if recorded_authority != subscription_authority {
        Err(SubscriptionsError::InvalidDelegatePda)
    } else if recorded_mint != transfer.mint@ {
        Err(SubscriptionsError::MintMismatch)
    } else {
        Ok(())
    }
}

fn check_delegation_binding(
    header: &Header,
    recorded_authority: &Address,
    recorded_mint: &Address,
    transfer: &TransferData,
    delegatee: &Address,
    subscription_authority: &Address,
) -> (r: Result<(), SubscriptionsError>)
    ensures
        r == delegation_binding_verdict(
            *header,
            recorded_authority@,
            recorded_mint@,
            *transfer,
            delegatee@,
            subscription_authority@,
        ),
{
    check_version(header.version)?;
    Delegation::check(header, &transfer.delegator, delegatee)?;
    if !recorded_authority.equals(subscription_authority) {
        return Err(SubscriptionsError::InvalidDelegatePda);
    }
    if !recorded_mint.equals(&transfer.mint) {
        return Err(SubscriptionsError::MintMismatch);
    }
    Ok(())
}

/// The verdict of a transfer against a fixed delegation.
pub open spec fn fixed_transfer_verdict(
    d: FixedDelegation,
    transfer: TransferData,
    delegatee: Seq<u8>,
    subscription_authority: Seq<u8>,
    current_ts: i64,
) -> Result<(), SubscriptionsError> {
    if delegation_binding_verdict(
        d.header,
        d.subscription_authority@,
        d.mint@,
        transfer,
        delegatee,
        subscription_authority,
    ) is Err {
        delegation_binding_verdict(
            d.header,
            d.subscription_authority@,
            d.mint@,
            transfer,
            delegatee,
            subscription_authority,
        )
    } else {
        fixed_transfer_outcome(transfer.amount, d.amount, d.expiry_ts, current_ts)
    }
}

/// Applies a transfer to a fixed delegation: checks who may pull from it and
/// its allowance, then decrements the allowance. Returns the remaining
/// amount; the delegation is unchanged when the transfer is refused.
pub fn apply_fixed_transfer(
    delegation: &mut FixedDelegation,
    transfer: &TransferData,
    delegatee: &Address,
    subscription_authority: &Address,
    current_ts: i64,
) -> (r: Result<u64, SubscriptionsError>)
    ensures
        match r {
            Ok(remaining) => {
                &&& fixed_transfer_verdict(
                    *old(delegation),
                    *transfer,
                    delegatee@,
                    subscription_authority@,
                    current_ts,
                ) is Ok
                &&& remaining == old(delegation).amount - transfer.amount
                &&& *final(delegation) == FixedDelegation { amount: remaining, ..*old(delegation) }
            },
            Err(e) => {
                &&& fixed_transfer_verdict(
                    *old(delegation),
                    *transfer,
                    delegatee@,
                    subscription_authority@,
                    current_ts,
                ) == Err::<(), SubscriptionsError>(e)
                &&& *final(delegation) == *old(delegation)
            },
        },
{
    check_delegation_binding(
        &delegation.header,
        &delegation.subscription_authority,
        &delegation.mint,
        transfer,
        delegatee,
        subscription_authority,
    )?;
    validate_fixed_transfer(transfer.amount, delegation.amount, delegation.expiry_ts, current_ts)?;
    delegation.amount = delegation.amount - transfer.amount;
    Ok(delegation.amount)
}

/// The verdict, new period start and new pulled amount of a transfer against
/// a recurring delegation.
pub open spec fn recurring_transfer_verdict(
    d: RecurringDelegation,
    transfer: TransferData,
    delegatee: Seq<u8>,
    subscription_authority: Seq<u8>,
    current_ts: i64,
) -> (Result<(), SubscriptionsError>, i64, u64) {
    if delegation_binding_verdict(
        d.header,
        d.subscription_authority@,
        d.mint@,
        transfer,
        delegatee,
        subscription_authority,
    ) is Err {
        (
            delegation_binding_verdict(
                d.header,
                d.subscription_authority@,
                d.mint@,
                transfer,
                delegatee,
                subscription_authority,
            ),
            d.current_period_start_ts,
            d.amount_pulled_in_period,
        )
    } else {
        recurring_transfer_outcome(
            transfer.amount,
            d.amount_per_period,
            d.period_length_s,
            d.current_period_start_ts,
            d.amount_pulled_in_period,
            d.expiry_ts,
            current_ts,
        )
    }
}

/// Applies a transfer to a recurring delegation, rolling its period forward
/// as needed. Returns the period start and the amount pulled in that period;
/// the delegation is unchanged when the transfer is refused.
pub fn apply_recurring_transfer(
    delegation: &mut RecurringDelegation,
    transfer: &TransferData,
    delegatee: &Address,
    subscription_authority: &Address,
    current_ts: i64,
) -> (r: Result<(i64, u64), SubscriptionsError>)
    ensures
        ({
            let v = recurring_transfer_verdict(
                *old(delegation),
                *transfer,
                delegatee@,
                subscription_authority@,
                current_ts,
            );
            match r {
                Ok((start, pulled)) => {
                    &&& v.0 is Ok
                    &&& start == v.1
                    &&& pulled == v.2
                    &&& *final(delegation) == RecurringDelegation {
                        current_period_start_ts: start,
                        amount_pulled_in_period: pulled,
                        ..*old(delegation)
                    }
                },
                Err(e) => v.0 == Err::<(), SubscriptionsError>(e) && *final(delegation) == *old(
                    delegation,
                ),
            }
        }),
{
    check_delegation_binding(
        &delegation.header,
        &delegation.subscription_authority,
        &delegation.mint,
        transfer,
        delegatee,
        subscription_authority,
    )?;
    let mut start = delegation.current_period_start_ts;
    let mut pulled = delegation.amount_pulled_in_period;
    validate_recurring_transfer(
        transfer.amount,
        delegation.amount_per_period,
        delegation.period_length_s,
        &mut start,
        &mut pulled,
        delegation.expiry_ts,
        current_ts,
    )?;
    delegation.current_period_start_ts = start;
    delegation.amount_pulled_in_period = pulled;
    Ok((start, pulled))
}

/// The verdict of the draw against an up-to delegation.
pub open spec fn up_to_draw_verdict(
    d: UpToDelegation,
    transfer: TransferData,
    delegatee: Seq<u8>,
    subscription_authority: Seq<u8>,
    current_ts: i64,
) -> Result<(), SubscriptionsError> {
    if delegation_binding_verdict(
        d.header,
        d.subscription_authority@,
        d.mint@,
        transfer,
        delegatee,
        subscription_authority,
    ) is Err {
        delegation_binding_verdict(
            d.header,
            d.subscription_authority@,
            d.mint@,
            transfer,
            delegatee,
            subscription_authority,
        )
    } else {
        up_to_transfer_outcome(transfer.amount, d.max_amount, d.expiry_ts, current_ts)
    }
}

/// Applies the single draw to an up-to delegation and consumes it by zeroing
/// its ceiling. Returns the bound recipient; the delegation is unchanged
/// when the draw is refused.
pub fn apply_up_to_draw(
    delegation: &mut UpToDelegation,
    transfer: &TransferData,
    delegatee: &Address,
    subscription_authority: &Address,
    current_ts: i64,
) -> (r: Result<Address, SubscriptionsError>)
    ensures
        match r {
            Ok(recipient) => {
                &&& up_to_draw_verdict(
                    *old(delegation),
                    *transfer,
                    delegatee@,
                    subscription_authority@,
                    current_ts,
                ) is Ok
                &&& recipient == old(delegation).recipient
                &&& *final(delegation) == UpToDelegation { max_amount: 0, ..*old(delegation) }
            },
            Err(e) => {
                &&& up_to_draw_verdict(
                    *old(delegation),
                    *transfer,
                    delegatee@,
                    subscription_authority@,
                    current_ts,
                ) == Err::<(), SubscriptionsError>(e)
                &&& *final(delegation) == *old(delegation)
            },
        },
{
    check_delegation_binding(
        &delegation.header,
        &delegation.subscription_authority,
        &delegation.mint,
        transfer,
        delegatee,
        subscription_authority,
    )?;
    validate_up_to_transfer(transfer.amount, delegation.max_amount, delegation.expiry_ts, current_ts)?;
    delegation.max_amount = 0;
    Ok(delegation.recipient)
}

/// Once the delegation is bound to the caller (version, delegator,
/// delegatee, SubscriptionAuthority, mint), a fixed transfer is accepted
/// exactly when its amount is positive and at most the remaining
/// allowance, before a finite expiry has passed; accepting the whole
/// remainder leaves nothing.
pub proof fn law_fixed_transfer_accepted_within_allowance(
    d: FixedDelegation,
    transfer: TransferData,
    delegatee: Seq<u8>,
    subscription_authority: Seq<u8>,
    current_ts: i64,
)
    requires
        delegation_binding_verdict(
            d.header,
            d.subscription_authority@,
            d.mint@,
            transfer,
            delegatee,
            subscription_authority,
        ) is Ok,
    ensures
        fixed_transfer_verdict(d, transfer, delegatee, subscription_authority, current_ts) is Ok <==> (0
            < transfer.amount && transfer.amount <= d.amount && (d.expiry_ts == 0 || current_ts <= d.expiry_ts)),
        (fixed_transfer_verdict(d, transfer, delegatee, subscription_authority, current_ts) is Ok && transfer.amount
            == d.amount) ==> d.amount - transfer.amount == 0,
{
}

/// Once the delegation is bound to the caller, the draw of an up-to
/// delegation is accepted exactly when it is unconsumed, not past a finite
/// expiry, and the amount is at most the ceiling.
pub proof fn law_up_to_draw_accepted_within_ceiling(
    d: UpToDelegation,
    transfer: TransferData,
    delegatee: Seq<u8>,
    subscription_authority: Seq<u8>,
    current_ts: i64,
)
    requires
        delegation_binding_verdict(
            d.header,
            d.subscription_authority@,
            d.mint@,
            transfer,
            delegatee,
            subscription_authority,
        ) is Ok,
    ensures
        up_to_draw_verdict(d, transfer, delegatee, subscription_authority, current_ts) is Ok <==> (d.max_amount > 0
            && (d.expiry_ts == 0 || current_ts <= d.expiry_ts) && transfer.amount <= d.max_amount),
{
}

/// A fixed delegation never pays out more than it was granted: an accepted
/// transfer moves exactly its amount out of the remaining allowance, so two
/// accepted transfers in a row together stay within the allowance the
/// delegation had before them.
pub proof fn law_fixed_transfers_within_allowance(
    d: FixedDelegation,
    first: TransferData,
    second: TransferData,
    delegatee: Seq<u8>,
    subscription_authority: Seq<u8>,
    first_ts: i64,
    second_ts: i64,
)
    requires
        fixed_transfer_verdict(d, first, delegatee, subscription_authority, first_ts) is Ok,
        fixed_transfer_verdict(
            FixedDelegation { amount: (d.amount - first.amount) as u64, ..d },
            second,
            delegatee,
            subscription_authority,
            second_ts,
        ) is Ok,
    ensures
        first.amount <= d.amount,
        first.amount + second.amount <= d.amount,
{
}

/// An up-to delegation can be drawn once: after an accepted draw no further
/// draw is accepted, whoever asks and whenever.
pub proof fn law_up_to_single_draw(
    d: UpToDelegation,
    first: TransferData,
    second: TransferData,
    delegatee: Seq<u8>,
    subscription_authority: Seq<u8>,
    second_delegatee: Seq<u8>,
    second_authority: Seq<u8>,
    first_ts: i64,
    second_ts: i64,
)
    requires
        up_to_draw_verdict(d, first, delegatee, subscription_authority, first_ts) is Ok,
    ensures
        up_to_draw_verdict(
            UpToDelegation { max_amount: 0, ..d },
            second,
            second_delegatee,
            second_authority,
            second_ts,
        ) is Err,
{
}

} // verus!
