use vstd::prelude::*;

use crate::accounts::{optional_payer_verdict, resolve_optional_payer, AccountInfo, SignerAccount, SystemAccount, WritableAccount};
use crate::address::{zero_address, Address};
use crate::errors::SubscriptionsError;
use crate::token_interface::{MintInterface, TokenProgramInterface};
use crate::pda::{find_plan_pda, plan_seeds, program_id_bytes, spec_find_program_address};
use crate::state::common::{plan_end_ts_verdict, validate_plan_end_ts, AccountDiscriminator, PlanStatus};
use crate::state::plan::{Plan, PlanData, PlanTerms};

verus! {

/// Longest allowed plan period: 365 days in hours.
pub const MAX_PLAN_PERIOD_HOURS: u64 = 8760;

/// Maximum number of destination wallets a plan can whitelist.
pub const MAX_DESTINATIONS: usize = 4;

/// Maximum number of puller addresses a plan can authorize.
pub const MAX_PULLERS: usize = 4;

impl PlanData {
    /// The verdict of [`validate`](Self::validate): a positive amount, a
    /// period of 1 to [`MAX_PLAN_PERIOD_HOURS`] hours, and a valid end.
    pub open spec fn validation(&self, current_time: i64) -> Result<(), SubscriptionsError> {
        if self.terms.amount == 0 {
            Err(SubscriptionsError::InvalidAmount)
        } else if self.terms.period_hours == 0 || self.terms.period_hours > MAX_PLAN_PERIOD_HOURS {
            Err(SubscriptionsError::InvalidPeriodLength)
        } else {
            plan_end_ts_verdict(self.end_ts, self.terms.period_hours, current_time)
        }
    }

    /// Validates plan data against the current clock time. Destinations and
    /// pullers are not validated: empty lists mean "any destination" and
    /// "owner only".
    pub fn validate(&self, current_time: i64) -> (r: Result<(), SubscriptionsError>)
        ensures
            r == self.validation(current_time),
    {
        if self.terms.amount == 0 {
            return Err(SubscriptionsError::InvalidAmount);
        }
        if self.terms.period_hours == 0 || self.terms.period_hours > MAX_PLAN_PERIOD_HOURS {
            return Err(SubscriptionsError::InvalidPeriodLength);
        }
        validate_plan_end_ts(self.end_ts, self.terms.period_hours, current_time)
    }
}

/// The verdict of creating a plan from `data` for the mint account `token_mint`.
pub open spec fn create_plan_verdict(data: PlanData, token_mint: Seq<u8>, current_ts: i64) -> Result<
    (),
    SubscriptionsError,
> {
    if data.validation(current_ts) is Err {
        data.validation(current_ts)
    } else if token_mint != data.mint@ {
        Err(SubscriptionsError::MintMismatch)
    } else {
        Ok(())
    }
}

/// Checks a plan creation: the data is valid and names the supplied mint.
pub fn check_create_plan(data: &PlanData, token_mint: &Address, current_ts: i64) -> (r: Result<
    (),
    SubscriptionsError,
>)
    ensures
        r == create_plan_verdict(*data, token_mint@, current_ts),
{
    data.validate(current_ts)?;
    if !token_mint.equals(&data.mint) {
        return Err(SubscriptionsError::MintMismatch);
    }
    Ok(())
}

/// The account written for a freshly created plan: active, owned by the
/// merchant, with the creation time stamped into its terms.
pub fn new_plan(merchant: &Address, bump: u8, data: &PlanData, current_ts: i64) -> (p: Plan)
    ensures
        p.discriminator == AccountDiscriminator::Plan.byte(),
        p.owner == *merchant,
        p.bump == bump,
        p.status == PlanStatus::Active.byte(),
        p.data == (PlanData {
            terms: PlanTerms { created_at: current_ts, ..data.terms },
            ..*data
        }),
{
    let mut plan_data = *data;
    plan_data.terms.created_at = current_ts;
    Plan {
        discriminator: AccountDiscriminator::Plan.as_u8(),
        owner: *merchant,
        bump,
        status: PlanStatus::Active.as_u8(),
        data: plan_data,
    }
}

/// The verdict of creating the plan PDA of `merchant`'s plan `plan_id` at
/// `plan_address` (currently `plan_data_len` bytes): the account must be
/// empty and be that PDA. Gives the bump that signs the creation.
pub open spec fn create_plan_account_verdict(
    merchant: Seq<u8>,
    plan_address: Seq<u8>,
    plan_data_len: nat,
    plan_id: u64,
) -> Result<u8, SubscriptionsError> {
    let pda = spec_find_program_address(plan_seeds(merchant, plan_id), program_id_bytes());
    if plan_data_len > 0 {
        Err(SubscriptionsError::PlanAlreadyExists)
    } else if pda is None || pda.unwrap().0 != plan_address {
        Err(SubscriptionsError::InvalidPlanPda)
    } else {
        Ok(pda.unwrap().1)
    }
}

/// Decides the creation of a plan PDA (see [`create_plan_account_verdict`]).
pub fn create_plan_account(merchant: &Address, plan_address: &Address, plan_data_len: usize, plan_id: u64) -> (r:
    Result<u8, SubscriptionsError>)
    ensures
        r == create_plan_account_verdict(merchant@, plan_address@, plan_data_len as nat, plan_id),
{
    if plan_data_len > 0 {
        return Err(SubscriptionsError::PlanAlreadyExists);
    }
    match find_plan_pda(merchant, plan_id) {
        Some((a, bump)) => {
            if !a.equals(plan_address) {
                return Err(SubscriptionsError::InvalidPlanPda);
            }
            Ok(bump)
        },
        None => Err(SubscriptionsError::InvalidPlanPda),
    }
}

/// The verdict of a `CreatePlan` by `merchant` for the plan account at
/// `plan_address` with the mint account `token_mint`: the plan to write
/// and the bump that signs the account's creation.
pub open spec fn create_verdict(
    merchant: Address,
    plan_address: Seq<u8>,
    plan_data_len: nat,
    token_mint: Seq<u8>,
    data: PlanData,
    current_ts: i64,
) -> Result<(Plan, u8), SubscriptionsError> {
    match create_plan_verdict(data, token_mint, current_ts) {
        Err(e) => Err(e),
        Ok(()) => match create_plan_account_verdict(merchant@, plan_address, plan_data_len, data.plan_id) {
            Err(e) => Err(e),
            Ok(bump) => Ok(
                (
                    Plan {
                        discriminator: AccountDiscriminator::Plan.byte(),
                        owner: merchant,
                        bump,
                        status: PlanStatus::Active.byte(),
                        data: PlanData { terms: PlanTerms { created_at: current_ts, ..data.terms }, ..data },
                    },
                    bump,
                ),
            ),
        },
    }
}

/// Decides a `CreatePlan`: validates the plan data and its mint, checks the
/// plan PDA, and returns the plan to write once the account is created.
pub fn create(
    merchant: &Address,
    plan_address: &Address,
    plan_data_len: usize,
    token_mint: &Address,
    data: &PlanData,
    current_ts: i64,
) -> (r: Result<(Plan, u8), SubscriptionsError>)
    ensures
        r == create_verdict(*merchant, plan_address@, plan_data_len as nat, token_mint@, *data, current_ts),
{
    check_create_plan(data, token_mint, current_ts)?;
    let bump = create_plan_account(merchant, plan_address, plan_data_len, data.plan_id)?;
    Ok((new_plan(merchant, bump, data, current_ts), bump))
}

/// The accounts of a `CreatePlan` instruction, by index.
pub struct CreatePlanAccounts {
    /// The merchant (signer, writable), the plan's owner.
    pub merchant: usize,
    /// The plan PDA to create (writable).
    pub plan_pda: usize,
    /// The plan's token mint.
    pub token_mint: usize,
    /// The System Program.
    pub system_program: usize,
    /// The token program (SPL Token or Token-2022) that owns the mint.
    pub token_program: usize,
    /// Who funds the rent: a trailing sponsor, else the merchant.
    pub payer: usize,
}

impl CreatePlanAccounts {
    /// The verdict of [`Self::try_from`].
    pub open spec fn verdict(accounts: Seq<AccountInfo>) -> Result<Self, SubscriptionsError> {
        if accounts.len() < 5 {
            Err(SubscriptionsError::NotEnoughAccountKeys)
        } else if !accounts[0].is_signer {
            Err(SubscriptionsError::NotSigner)
        } else if !accounts[0].is_writable {
            Err(SubscriptionsError::AccountNotWritable)
        } else if !accounts[1].is_writable {
            Err(SubscriptionsError::AccountNotWritable)
        } else if MintInterface::verdict(accounts[2], accounts[4]) is Err {
            Err(MintInterface::verdict(accounts[2], accounts[4])->Err_0)
        } else if TokenProgramInterface::verdict(accounts[4]) is Err {
            Err(SubscriptionsError::IncorrectProgramId)
        } else if accounts[3].address@ != zero_address() {
            Err(SubscriptionsError::NotSystemProgram)
        } else {
            match optional_payer_verdict(accounts, 0, 5) {
                Err(e) => Err(e),
                Ok(p) => Ok(
                    CreatePlanAccounts {
                        merchant: 0,
                        plan_pda: 1,
                        token_mint: 2,
                        system_program: 3,
                        token_program: 4,
                        payer: p as usize,
                    },
                ),
            }
        }
    }

    /// Picks and checks the accounts: merchant, plan, mint, System Program,
    /// token program, then an optional sponsor who pays the rent.
    pub fn try_from(accounts: &[AccountInfo]) -> (r: Result<Self, SubscriptionsError>)
        ensures
            r == Self::verdict(accounts@),
            r matches Ok(a) ==> a.payer < accounts@.len(),
    {
        if accounts.len() < 5 {
            return Err(SubscriptionsError::NotEnoughAccountKeys);
        }
        SignerAccount::check(&accounts[0])?;
        WritableAccount::check(&accounts[0])?;
        WritableAccount::check(&accounts[1])?;
        MintInterface::check_with_program(&accounts[2], &accounts[4])?;
        TokenProgramInterface::check(&accounts[4])?;
        SystemAccount::check(&accounts[3])?;
        let payer = resolve_optional_payer(accounts, 0, 5)?;
        Ok(
            CreatePlanAccounts {
                merchant: 0,
                plan_pda: 1,
                token_mint: 2,
                system_program: 3,
                token_program: 4,
                payer,
            },
        )
    }
}

/// The verdict of a `CreatePlan` instruction over its accounts: the plan
/// data is validated first, then the accounts, then [`create_verdict`].
pub open spec fn create_plan_accounts_verdict(accounts: Seq<AccountInfo>, data: PlanData, current_ts: i64) -> Result<
    (Plan, u8),
    SubscriptionsError,
> {
    if data.validation(current_ts) is Err {
        Err(data.validation(current_ts)->Err_0)
    } else if CreatePlanAccounts::verdict(accounts) is Err {
        Err(CreatePlanAccounts::verdict(accounts)->Err_0)
    } else {
        create_verdict(
            accounts[0].address,
            accounts[1].address@,
            accounts[1].data@.len(),
            accounts[2].address@,
            data,
            current_ts,
        )
    }
}

/// Decides a `CreatePlan` instruction (see [`create_plan_accounts_verdict`]):
/// the plan to write, the bump that signs the creation of its account, and
/// the index of the account that funds the rent.
pub fn process(accounts: &[AccountInfo], data: &PlanData, current_ts: i64) -> (r: Result<
    (Plan, u8, usize),
    SubscriptionsError,
>)
    ensures
        match r {
            Ok((plan, bump, payer)) => {
                &&& create_plan_accounts_verdict(accounts@, *data, current_ts) == Ok::<
                    (Plan, u8),
                    SubscriptionsError,
                >((plan, bump))
                &&& CreatePlanAccounts::verdict(accounts@) matches Ok(a) && payer == a.payer
            },
            Err(e) => create_plan_accounts_verdict(accounts@, *data, current_ts) == Err::<
                (Plan, u8),
                SubscriptionsError,
            >(e),
        },
{
    data.validate(current_ts)?;
    let picked = CreatePlanAccounts::try_from(accounts)?;
    let merchant = &accounts[0];
    let plan = &accounts[1];
    let (p, bump) = create(&merchant.address, &plan.address, plan.data.len(), &accounts[2].address, data, current_ts)?;
    Ok((p, bump, picked.payer))
}

/// Plan data is accepted exactly when it asks a positive amount per period
/// of one hour to one year, and either never ends or ends no earlier than
/// one full period after `current_time`.
pub proof fn law_plan_data_leaves_a_full_period(data: PlanData, current_time: i64)
    ensures
        data.validation(current_time) is Ok <==> (data.terms.amount > 0 && 1 <= data.terms.period_hours <= 8760 && (
        data.end_ts == 0 || data.end_ts >= current_time + data.terms.period_hours * 3600)),
        (data.terms.amount > 0 && 1 <= data.terms.period_hours <= 8760 && data.end_ts != 0 && data.end_ts
            < current_time + data.terms.period_hours * 3600) ==> data.validation(current_time) == Err::<
            (),
            SubscriptionsError,
        >(SubscriptionsError::InvalidEndTs),
{
}

/// Every plan the instruction creates is active, stamped with the creation
/// time, and either never ends or ends at least one full billing period
/// after its creation.
pub proof fn law_created_plan_has_a_full_period(accounts: Seq<AccountInfo>, data: PlanData, current_ts: i64)
    requires
        create_plan_accounts_verdict(accounts, data, current_ts) is Ok,
    ensures
        ({
            let plan = create_plan_accounts_verdict(accounts, data, current_ts)->Ok_0.0;
            &&& plan.data.end_ts == 0 || plan.data.end_ts >= current_ts + plan.data.terms.period_hours * 3600
            &&& plan.data.terms.created_at == current_ts
            &&& plan.data.terms.amount > 0
            &&& plan.data.terms.period_hours >= 1
            &&& plan.status == PlanStatus::Active.byte()
            &&& plan.owner == accounts[0].address
        }),
{
}

} // verus!
