use vstd::prelude::*;
use crate::address::zero_address;
use crate::accounts::{optional_payer_verdict, resolve_optional_payer, AccountInfo, ProgramAccount, SignerAccount, SubscriptionAuthorityAccount, SystemAccount, WritableAccount};

use crate::address::Address;
use crate::codec::{
    le_i64, le_u64, lemma_le_i64_injective, lemma_le_len, lemma_le_u64_injective, read_address, read_i64,
    read_u64, write_address, write_i64, write_u64,
};
use crate::errors::SubscriptionsError;
use crate::pda::{
    find_subscription_pda, plan_seeds, program_id_bytes, spec_create_program_address,
    spec_find_program_address, subscription_seeds, verify_plan_pda,
};
use crate::state::common::{AccountDiscriminator, PlanStatus};
use crate::state::header::Header;
use crate::state::plan::Plan;
use crate::state::subscription_authority::SubscriptionAuthority;
use crate::state::subscription_delegation::SubscriptionDelegation;

verus! {

/// Instruction data for subscribing to a plan, binding the terms the subscriber saw.
#[derive(Clone, Copy, Debug, PartialEq, Eq)]
pub struct SubscribeData {
    /// The plan's `plan_id`.
    pub plan_id: u64,
    /// The plan PDA's bump seed.
    pub plan_bump: u8,
    /// Mint the subscriber consented to.
    pub expected_mint: Address,
    /// Amount per period the subscriber consented to.
    pub expected_amount: u64,
    /// Period length the subscriber consented to.
    pub expected_period_hours: u64,
    /// Plan creation time the subscriber saw.
    pub expected_created_at: i64,
    /// SubscriptionAuthority generation the subscriber approved.
    pub expected_subscription_authority_init_id: i64,
}

impl SubscribeData {
    /// Serialized size in bytes.
    pub const LEN: usize = 73;

    /// The record's bytes.
    pub open spec fn encode(&self) -> Seq<u8> {
        le_u64(self.plan_id) + seq![self.plan_bump] + self.expected_mint@ + le_u64(self.expected_amount) + le_u64(self.expected_period_hours) + le_i64(self.expected_created_at) + le_i64(self.expected_subscription_authority_init_id)
    }

    /// The encoding is `LEN` bytes long.
    pub proof fn lemma_encode_len(&self)
        ensures
            self.encode().len() == Self::LEN,
    {
        lemma_le_len(self.plan_id, 0);
        lemma_le_len(self.expected_amount, 0);
        lemma_le_len(self.expected_period_hours, 0);
        lemma_le_len(0, self.expected_created_at);
        lemma_le_len(0, self.expected_subscription_authority_init_id);
    }

    /// Two records with the same bytes are equal.
    pub proof fn lemma_encode_injective(a: Self, b: Self)
        requires
            a.encode() == b.encode(),
        ensures
            a == b,
    {
        lemma_le_len(a.plan_id, 0);
        lemma_le_len(a.expected_amount, 0);
        lemma_le_len(a.expected_period_hours, 0);
        lemma_le_len(0, a.expected_created_at);
        lemma_le_len(0, a.expected_subscription_authority_init_id);
        lemma_le_len(b.plan_id, 0);
        lemma_le_len(b.expected_amount, 0);
        lemma_le_len(b.expected_period_hours, 0);
        lemma_le_len(0, b.expected_created_at);
        lemma_le_len(0, b.expected_subscription_authority_init_id);
        let s = a.encode();
        assert(le_u64(a.plan_id) =~= s.subrange(0, 8));
        assert(le_u64(b.plan_id) =~= s.subrange(0, 8));
        lemma_le_u64_injective(a.plan_id, b.plan_id);
        assert(s[8] == a.plan_bump && s[8] == b.plan_bump);
        assert(a.expected_mint@ =~= s.subrange(9, 41));
        assert(b.expected_mint@ =~= s.subrange(9, 41));
        assert(a.expected_mint.bytes == b.expected_mint.bytes);
        assert(le_u64(a.expected_amount) =~= s.subrange(41, 49));
        assert(le_u64(b.expected_amount) =~= s.subrange(41, 49));
        lemma_le_u64_injective(a.expected_amount, b.expected_amount);
        assert(le_u64(a.expected_period_hours) =~= s.subrange(49, 57));
        assert(le_u64(b.expected_period_hours) =~= s.subrange(49, 57));
        lemma_le_u64_injective(a.expected_period_hours, b.expected_period_hours);
        assert(le_i64(a.expected_created_at) =~= s.subrange(57, 65));
        assert(le_i64(b.expected_created_at) =~= s.subrange(57, 65));
        lemma_le_i64_injective(a.expected_created_at, b.expected_created_at);
        assert(le_i64(a.expected_subscription_authority_init_id) =~= s.subrange(65, 73));
        assert(le_i64(b.expected_subscription_authority_init_id) =~= s.subrange(65, 73));
        lemma_le_i64_injective(a.expected_subscription_authority_init_id, b.expected_subscription_authority_init_id);
    }

    /// Decodes the first `LEN` bytes of `data`.
    pub fn parse(data: &[u8]) -> (d: Self)
        requires
            data@.len() >= Self::LEN,
        ensures
            d.encode() == data@.subrange(0, Self::LEN as int),
    {
        let d = SubscribeData {
            plan_id: read_u64(data, 0),
            plan_bump: data[8],
            expected_mint: read_address(data, 9),
            expected_amount: read_u64(data, 41),
            expected_period_hours: read_u64(data, 49),
            expected_created_at: read_i64(data, 57),
            expected_subscription_authority_init_id: read_i64(data, 65),
        };
        assert(d.encode() =~= data@.subrange(0, Self::LEN as int));
        d
    }

    /// Deserializes instruction data of exactly `LEN` bytes.
    pub fn load(bytes: &[u8]) -> (r: Result<Self, SubscriptionsError>)
        ensures
            match r {
                Ok(d) => d.encode() == bytes@,
                Err(e) => e == SubscriptionsError::InvalidInstructionData,
            },
            r is Ok <==> bytes@.len() == Self::LEN,
    {
        if bytes.len() != Self::LEN {
            return Err(SubscriptionsError::InvalidInstructionData);
        }
        let d = Self::parse(bytes);
        assert(bytes@.subrange(0, Self::LEN as int) =~= bytes@);
        Ok(d)
    }

    /// Serializes the record.
    pub fn to_bytes(&self) -> (v: Vec<u8>)
        ensures
            v@ == self.encode(),
    {
        let mut v: Vec<u8> = Vec::new();
        write_u64(&mut v, self.plan_id);
        v.push(self.plan_bump);
        write_address(&mut v, &self.expected_mint);
        write_u64(&mut v, self.expected_amount);
        write_u64(&mut v, self.expected_period_hours);
        write_i64(&mut v, self.expected_created_at);
        write_i64(&mut v, self.expected_subscription_authority_init_id);
        assert(v@ =~= self.encode());
        v
    }
}

/// The subscription a successful subscribe creates: a fresh header binding
/// the subscriber to the plan, the plan's live terms, and a first period
/// that opens now with nothing pulled.
pub open spec fn new_subscription(
    bump: u8,
    subscriber: Address,
    plan_address: Address,
    payer: Address,
    plan: Plan,
    init_id: i64,
    current_ts: i64,
) -> SubscriptionDelegation {
    SubscriptionDelegation {
        header: Header::spec_init(
            AccountDiscriminator::SubscriptionDelegation,
            bump,
            subscriber,
            plan_address,
            payer,
            init_id,
        ),
        terms: plan.data.terms,
        amount_pulled_in_period: 0,
        current_period_start_ts: current_ts,
        expires_at_ts: 0,
    }
}

/// Whether the live plan carries the mint and terms the subscriber signed for.
pub open spec fn consented_terms(plan: Plan, data: SubscribeData) -> bool {
    &&& plan.data.mint@ == data.expected_mint@
    &&& plan.data.terms.amount == data.expected_amount
    &&& plan.data.terms.period_hours == data.expected_period_hours
    &&& plan.data.terms.created_at == data.expected_created_at
}

/// The verdict of `subscriber` subscribing to the plan at `plan_address`
/// of `merchant`: the new subscription and its PDA bump, or why it is
/// refused. `subscription_data_len` is the current size of the account at
/// `subscription_address`.
pub open spec fn subscribe_verdict(
    subscriber: Address,
    merchant: Address,
    plan_address: Address,
    plan_data: Seq<u8>,
    authority_data: Seq<u8>,
    subscription_address: Address,
    subscription_data_len: nat,
    payer: Address,
    data: SubscribeData,
    current_ts: i64,
) -> Result<(SubscriptionDelegation, u8), SubscriptionsError> {
    let plan_pda = spec_create_program_address(
        plan_seeds(merchant@, data.plan_id).push(seq![data.plan_bump]),
        program_id_bytes(),
    );
    if plan_pda is None || plan_pda->0 != plan_address@ {
        Err(SubscriptionsError::InvalidPlanPda)
    } else {
        match Plan::load_verdict(plan_data) {
            Err(e) => Err(e),
            Ok(plan) => if plan.status > 1 {
                Err(SubscriptionsError::InvalidPlanStatus)
            } else if plan.status != PlanStatus::Active.byte() {
                Err(SubscriptionsError::PlanSunset)
            } else if plan.data.end_ts != 0 && current_ts > plan.data.end_ts {
                Err(SubscriptionsError::PlanExpired)
            } else if !consented_terms(plan, data) {
                Err(SubscriptionsError::PlanTermsMismatch)
            } else {
                match SubscriptionAuthority::load_verdict(authority_data) {
                    Err(e) => Err(e),
                    Ok(authority) => if authority.user@ != subscriber@ {
                        Err(SubscriptionsError::Unauthorized)
                    } else if authority.token_mint@ != plan.data.mint@ {
                        Err(SubscriptionsError::MintMismatch)
                    } else if authority.init_id != data.expected_subscription_authority_init_id {
                        Err(SubscriptionsError::StaleSubscriptionAuthority)
                    } else {
                        let pda = spec_find_program_address(
                            subscription_seeds(plan_address@, subscriber@),
                            program_id_bytes(),
                        );
                        if pda is None || pda.unwrap().0 != subscription_address@ {
                            Err(SubscriptionsError::InvalidSubscriptionPda)
                        } else if subscription_data_len > 0 {
                            Err(SubscriptionsError::AlreadySubscribed)
                        } else {
                            Ok(
                                (
                                    new_subscription(
                                        pda.unwrap().1,
                                        subscriber,
                                        plan_address,
                                        payer,
                                        plan,
                                        authority.init_id,
                                        current_ts,
                                    ),
                                    pda.unwrap().1,
                                ),
                            )
                        }
                    },
                }
            },
        }
    }
}

/// Decides a subscribe: checks the plan PDA, that the plan is active, not
/// ended and carries the consented terms, that the subscriber's
/// SubscriptionAuthority is of the plan's mint and of the consented
/// generation, and that the subscription account is the subscriber's PDA
/// and still empty. Returns the subscription to write into the account
/// once it is created, and the bump that signs its creation.
pub fn process(
    subscriber: &Address,
    merchant: &Address,
    plan_address: &Address,
    plan_data: &[u8],
    authority_data: &[u8],
    subscription_address: &Address,
    subscription_data_len: usize,
    payer: &Address,
    data: &SubscribeData,
    current_ts: i64,
) -> (r: Result<(SubscriptionDelegation, u8), SubscriptionsError>)
    ensures
        r == subscribe_verdict(
            *subscriber,
            *merchant,
            *plan_address,
            plan_data@,
            authority_data@,
            *subscription_address,
            subscription_data_len as nat,
            *payer,
            *data,
            current_ts,
        ),
{
    let expected_plan = verify_plan_pda(merchant, data.plan_id, data.plan_bump)?;
    if !expected_plan.equals(plan_address) {
        return Err(SubscriptionsError::InvalidPlanPda);
    }
    let loaded = Plan::load(plan_data);
    proof {
        Plan::lemma_load_verdict(plan_data@, loaded);
    }
    let plan = loaded?;
    let status = PlanStatus::try_from_u8(plan.status)?;
    if status != PlanStatus::Active {
        return Err(SubscriptionsError::PlanSunset);
    }
    if plan.data.end_ts != 0 && current_ts > plan.data.end_ts {
        return Err(SubscriptionsError::PlanExpired);
    }
    if !plan.data.mint.equals(&data.expected_mint) || plan.data.terms.amount != data.expected_amount
        || plan.data.terms.period_hours != data.expected_period_hours || plan.data.terms.created_at
        != data.expected_created_at {
        return Err(SubscriptionsError::PlanTermsMismatch);
    }
    let loaded_authority = SubscriptionAuthority::load(authority_data);
    proof {
        SubscriptionAuthority::lemma_load_verdict(authority_data@, loaded_authority);
    }
    let authority = loaded_authority?;
    authority.check_owner(subscriber)?;
    if !authority.token_mint.equals(&plan.data.mint) {
        return Err(SubscriptionsError::MintMismatch);
    }
    if authority.init_id != data.expected_subscription_authority_init_id {
        return Err(SubscriptionsError::StaleSubscriptionAuthority);
    }
    let (expected_pda, bump) = match find_subscription_pda(plan_address, subscriber) {
        Some(found) => found,
        None => {
            return Err(SubscriptionsError::InvalidSubscriptionPda);
        },
    };
    if !expected_pda.equals(subscription_address) {
        return Err(SubscriptionsError::InvalidSubscriptionPda);
    }
    if subscription_data_len > 0 {
        return Err(SubscriptionsError::AlreadySubscribed);
    }
    let header = Header::init(
        AccountDiscriminator::SubscriptionDelegation,
        bump,
        subscriber,
        plan_address,
        payer,
        authority.init_id,
    );
    let subscription = SubscriptionDelegation {
        header,
        terms: plan.data.terms,
        amount_pulled_in_period: 0,
        current_period_start_ts: current_ts,
        expires_at_ts: 0,
    };
    Ok((subscription, bump))
}

/// A subscription binds exactly what the subscriber signed for: the plan's
/// terms as the subscriber saw them, the SubscriptionAuthority generation
/// the subscriber approved, and a first period that opens now with nothing
/// pulled and no cancellation.
pub proof fn law_subscription_binds_consented_terms(
    subscriber: Address,
    merchant: Address,
    plan_address: Address,
    plan_data: Seq<u8>,
    authority_data: Seq<u8>,
    subscription_address: Address,
    subscription_data_len: nat,
    payer: Address,
    data: SubscribeData,
    current_ts: i64,
)
    requires
        subscribe_verdict(
            subscriber,
            merchant,
            plan_address,
            plan_data,
            authority_data,
            subscription_address,
            subscription_data_len,
            payer,
            data,
            current_ts,
        ) is Ok,
    ensures
        ({
            let s = subscribe_verdict(
                subscriber,
                merchant,
                plan_address,
                plan_data,
                authority_data,
                subscription_address,
                subscription_data_len,
                payer,
                data,
                current_ts,
            )->Ok_0.0;
            &&& s.terms.amount == data.expected_amount
            &&& s.terms.period_hours == data.expected_period_hours
            &&& s.terms.created_at == data.expected_created_at
            &&& s.header.init_id == data.expected_subscription_authority_init_id
            &&& s.header.delegator == subscriber
            &&& s.header.delegatee == plan_address
            &&& s.amount_pulled_in_period == 0
            &&& s.current_period_start_ts == current_ts
            &&& s.expires_at_ts == 0
            &&& subscription_data_len == 0
        }),
{
}

/// The accounts of a `Subscribe` instruction, by index.
pub struct SubscribeAccounts {
    /// The subscriber (signer, writable).
    pub subscriber: usize,
    /// The plan's merchant.
    pub merchant: usize,
    /// The plan (program-owned).
    pub plan_pda: usize,
    /// The subscription PDA to create (writable).
    pub subscription_pda: usize,
    /// The subscriber's SubscriptionAuthority.
    pub subscription_authority_pda: usize,
    /// The System Program.
    pub system_program: usize,
    /// The event authority.
    pub event_authority: usize,
    /// This program.
    pub self_program: usize,
    /// Who funds the rent: a trailing sponsor, else the subscriber.
    pub payer: usize,
}

impl SubscribeAccounts {
    /// The verdict of [`Self::try_from`].
    pub open spec fn verdict(accounts: Seq<AccountInfo>) -> Result<Self, SubscriptionsError> {
        if accounts.len() < 8 {
            Err(SubscriptionsError::NotEnoughAccountKeys)
        } else if !accounts[0].is_signer {
            Err(SubscriptionsError::NotSigner)
        } else if !accounts[0].is_writable {
            Err(SubscriptionsError::AccountNotWritable)
        } else if !accounts[2].spec_owned_by_program() {
            Err(SubscriptionsError::InvalidAccountOwner)
        } else if !accounts[3].is_writable {
            Err(SubscriptionsError::AccountNotWritable)
        } else if SubscriptionAuthorityAccount::verdict(accounts[4]) is Err {
            Err(SubscriptionAuthorityAccount::verdict(accounts[4])->Err_0)
        } else if accounts[5].address@ != zero_address() {
            Err(SubscriptionsError::NotSystemProgram)
        } else {
            match optional_payer_verdict(accounts, 0, 8) {
                Err(e) => Err(e),
                Ok(p) => Ok(
                    SubscribeAccounts {
                        subscriber: 0,
                        merchant: 1,
                        plan_pda: 2,
                        subscription_pda: 3,
                        subscription_authority_pda: 4,
                        system_program: 5,
                        event_authority: 6,
                        self_program: 7,
                        payer: p as usize,
                    },
                ),
            }
        }
    }

    /// Picks and checks the accounts: subscriber, merchant, plan,
    /// subscription, SubscriptionAuthority, System Program, event authority,
    /// this program, then an optional sponsor.
    pub fn try_from(accounts: &[AccountInfo]) -> (r: Result<Self, SubscriptionsError>)
        ensures
            r == Self::verdict(accounts@),
            r matches Ok(a) ==> a.payer < accounts@.len(),
    {
        if accounts.len() < 8 {
            return Err(SubscriptionsError::NotEnoughAccountKeys);
        }
        SignerAccount::check(&accounts[0])?;
        WritableAccount::check(&accounts[0])?;
        ProgramAccount::check(&accounts[2])?;
        WritableAccount::check(&accounts[3])?;
        SubscriptionAuthorityAccount::check(&accounts[4])?;
        SystemAccount::check(&accounts[5])?;
        let payer = resolve_optional_payer(accounts, 0, 8)?;
        Ok(
            SubscribeAccounts {
                subscriber: 0,
                merchant: 1,
                plan_pda: 2,
                subscription_pda: 3,
                subscription_authority_pda: 4,
                system_program: 5,
                event_authority: 6,
                self_program: 7,
                payer,
            },
        )
    }
}

} // verus!


