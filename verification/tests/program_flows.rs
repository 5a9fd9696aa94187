use subscriptions::accounts::AccountInfo;
use subscriptions::address::Address;
use subscriptions::errors::SubscriptionsError;
use subscriptions::instructions::cancel_subscription::{self, CancelSubscriptionAccounts};
use subscriptions::instructions::create_fixed_delegation::{self, CreateFixedDelegationData};
use subscriptions::instructions::create_plan;
use subscriptions::instructions::create_recurring_delegation::{self, CreateRecurringDelegationData};
use subscriptions::instructions::delete_plan;
use subscriptions::instructions::initialize_subscription_authority::initialize;
use subscriptions::instructions::revoke_delegation;
use subscriptions::instructions::subscribe::{self, SubscribeAccounts, SubscribeData};
use subscriptions::instructions::update_plan::{self, UpdatePlanData};
use subscriptions::pda::{
    find_associated_token_address, find_delegation_pda, find_plan_pda, find_subscription_authority_pda,
    find_subscription_pda, program_id, token_program_id,
};
use subscriptions::state::common::{AccountDiscriminator, PlanStatus};
use subscriptions::state::fixed_delegation::FixedDelegation;
use subscriptions::state::plan::{Plan, PlanData, PlanTerms};
use subscriptions::state::recurring_delegation::RecurringDelegation;
use subscriptions::state::subscription_delegation::SubscriptionDelegation;

const START: i64 = 1_700_000_000;

fn hours(n: u64) -> u64 {
    n * 3600
}

fn days(n: u64) -> u64 {
    n * 86_400
}

fn token_account(mint: &Address, owner: &Address) -> Vec<u8> {
    let mut data = vec![0u8; 165];
    data[..32].copy_from_slice(&mint.bytes);
    data[32..64].copy_from_slice(&owner.bytes);
    data
}

/// An in-memory ledger of accounts that applies the library's decisions.
struct Bank {
    accounts: Vec<AccountInfo>,
    now: i64,
    next: u32,
}

impl Bank {
    fn new() -> Bank {
        Bank { accounts: Vec::new(), now: START, next: 1 }
    }

    fn current_ts(&self) -> i64 {
        self.now
    }

    fn move_clock_forward(&mut self, secs: u64) {
        self.now += secs as i64;
    }

    fn unique(&mut self) -> Address {
        let mut b = [0u8; 32];
        b[..4].copy_from_slice(&self.next.to_le_bytes());
        b[31] = 0xEE;
        self.next += 1;
        Address::new_from_array(b)
    }

    fn find(&self, a: &Address) -> Option<usize> {
        self.accounts.iter().position(|x| x.address == *a)
    }

    fn get(&self, a: &Address) -> Option<&AccountInfo> {
        self.find(a).map(|i| &self.accounts[i])
    }

    fn lamports(&self, a: &Address) -> u64 {
        self.get(a).map(|x| x.lamports).unwrap_or(0)
    }

    fn put(&mut self, info: AccountInfo) {
        match self.find(&info.address) {
            Some(i) => self.accounts[i] = info,
            None => self.accounts.push(info),
        }
    }

    fn info(&self, a: &Address, is_signer: bool, is_writable: bool) -> AccountInfo {
        let mut info = self.get(a).cloned().unwrap_or(AccountInfo {
            address: *a,
            owner: Address::default(),
            is_signer: false,
            is_writable: false,
            lamports: 0,
            data: vec![],
        });
        info.is_signer = is_signer;
        info.is_writable = is_writable;
        info
    }

    fn init_wallet(&mut self, lamports: u64) -> Address {
        let a = self.unique();
        self.put(AccountInfo { address: a, owner: Address::default(), is_signer: false, is_writable: false, lamports, data: vec![] });
        a
    }

    fn init_mint(&mut self) -> Address {
        self.unique()
    }

    fn init_ata(&mut self, mint: Address, owner: Address) -> Address {
        let a = find_associated_token_address(&owner, &token_program_id(), &mint).unwrap().0;
        self.put(AccountInfo {
            address: a,
            owner: token_program_id(),
            is_signer: false,
            is_writable: false,
            lamports: 2_039_280,
            data: token_account(&mint, &owner),
        });
        a
    }

    fn create(&mut self, payer: &Address, address: &Address, data: Vec<u8>) {
        let rent = 1_000_000 + data.len() as u64 * 7_000;
        let i = self.find(payer).unwrap();
        self.accounts[i].lamports -= rent;
        self.put(AccountInfo { address: *address, owner: program_id(), is_signer: false, is_writable: false, lamports: rent, data });
    }

    fn write(&mut self, address: &Address, data: Vec<u8>) {
        let i = self.find(address).unwrap();
        self.accounts[i].data = data;
    }

    fn close(&mut self, target: &Address, destination: &Address) {
        let i = self.find(target).unwrap();
        let moved = self.accounts[i].lamports;
        self.accounts[i].lamports = 0;
        self.accounts[i].data = vec![];
        self.accounts[i].owner = Address::default();
        let j = self.find(destination).unwrap();
        self.accounts[j].lamports += moved;
    }

    fn initialize_subscription_authority(&mut self, user: Address, mint: Address) -> Result<(), SubscriptionsError> {
        let sa = find_subscription_authority_pda(&user, &mint).unwrap().0;
        let ata = find_associated_token_address(&user, &token_program_id(), &mint).unwrap().0;
        let ata_data = self.get(&ata).map(|x| x.data.clone()).unwrap_or_default();
        let len = self.get(&sa).map(|x| x.data.len()).unwrap_or(0);
        let (_, record) = initialize(&user, &mint, &sa, len, &user, &ata_data, self.now)?;
        if let Some(r) = record {
            self.create(&user, &sa, r.to_bytes());
        }
        Ok(())
    }

    fn create_delegation_accounts(&self, delegator: Address, mint: Address, delegatee: Address, nonce: u64, payer: Option<Address>) -> (Vec<AccountInfo>, Address) {
        let sa = find_subscription_authority_pda(&delegator, &mint).unwrap().0;
        let pda = find_delegation_pda(&sa, &delegator, &delegatee, nonce).unwrap().0;
        let mut accounts = vec![
            self.info(&delegator, true, true),
            self.info(&sa, false, false),
            self.info(&pda, false, true),
            self.info(&delegatee, false, false),
            self.info(&Address::default(), false, false),
        ];
        if let Some(p) = payer {
            accounts.push(self.info(&p, true, true));
        }
        (accounts, pda)
    }

    fn create_fixed(&mut self, delegator: Address, mint: Address, delegatee: Address, nonce: u64, amount: u64, expiry_ts: i64, payer: Option<Address>) -> (Result<(), SubscriptionsError>, Address) {
        let (accounts, pda) = self.create_delegation_accounts(delegator, mint, delegatee, nonce, payer);
        let data = CreateFixedDelegationData { nonce, amount, expiry_ts };
        match create_fixed_delegation::process(&accounts, &data, self.now) {
            Ok((d, i)) => {
                let p = accounts[i].address;
                self.create(&p, &pda, d.to_bytes());
                (Ok(()), pda)
            }
            Err(e) => (Err(e), pda),
        }
    }

    fn create_recurring(&mut self, delegator: Address, mint: Address, delegatee: Address, nonce: u64, amount: u64, period: u64, start_ts: i64, expiry_ts: i64, payer: Option<Address>) -> (Result<(), SubscriptionsError>, Address) {
        let (accounts, pda) = self.create_delegation_accounts(delegator, mint, delegatee, nonce, payer);
        let data = CreateRecurringDelegationData { nonce, amount_per_period: amount, period_length_s: period, start_ts, expiry_ts };
        match create_recurring_delegation::process(&accounts, &data, self.now) {
            Ok((d, i)) => {
                let p = accounts[i].address;
                self.create(&p, &pda, d.to_bytes());
                (Ok(()), pda)
            }
            Err(e) => (Err(e), pda),
        }
    }

    fn revoke_with(&mut self, accounts: Vec<AccountInfo>) -> Result<(), SubscriptionsError> {
        let i = revoke_delegation::process(&accounts, self.now)?;
        let target = accounts[1].address;
        let dest = accounts[i].address;
        self.close(&target, &dest);
        Ok(())
    }

    fn revoke(&mut self, signer: Address, delegation: Address, receiver: Option<Address>) -> Result<(), SubscriptionsError> {
        let mut accounts = vec![self.info(&signer, true, true), self.info(&delegation, false, true)];
        if let Some(r) = receiver {
            accounts.push(self.info(&r, false, true));
        }
        self.revoke_with(accounts)
    }

    fn revoke_subscription(&mut self, signer: Address, subscription: Address, plan: Address, receiver: Option<Address>) -> Result<(), SubscriptionsError> {
        let mut accounts = vec![
            self.info(&signer, true, true),
            self.info(&subscription, false, true),
            self.info(&plan, false, false),
        ];
        if let Some(r) = receiver {
            accounts.push(self.info(&r, false, true));
        }
        self.revoke_with(accounts)
    }

    fn create_plan(&mut self, merchant: Address, mint: Address, plan_id: u64, amount: u64, period_hours: u64, end_ts: i64) -> (Result<(), SubscriptionsError>, Address) {
        let plan = find_plan_pda(&merchant, plan_id).unwrap().0;
        let len = self.get(&plan).map(|x| x.data.len()).unwrap_or(0);
        let data = PlanData {
            plan_id,
            mint,
            terms: PlanTerms { amount, period_hours, created_at: 0 },
            end_ts,
            destinations: [Address::default(); 4],
            pullers: [Address::default(); 4],
            metadata_uri: [0u8; 128],
        };
        match create_plan::create(&merchant, &plan, len, &mint, &data, self.now) {
            Ok((p, _)) => {
                self.create(&merchant, &plan, p.to_bytes());
                (Ok(()), plan)
            }
            Err(e) => (Err(e), plan),
        }
    }

    fn update_plan(&mut self, merchant: Address, plan: Address, status: PlanStatus, end_ts: i64) -> Result<(), SubscriptionsError> {
        let accounts = vec![self.info(&merchant, true, false), self.info(&plan, false, true)];
        let current = Plan::load(&accounts[1].data)?;
        let data = UpdatePlanData { status: status.as_u8(), end_ts, pullers: current.data.pullers, metadata_uri: current.data.metadata_uri };
        let updated = update_plan::process(&accounts, &data, self.now)?;
        self.write(&plan, updated.to_bytes());
        Ok(())
    }

    fn delete_plan(&mut self, merchant: Address, plan: Address) -> Result<(), SubscriptionsError> {
        let accounts = vec![self.info(&merchant, true, true), self.info(&plan, false, true)];
        delete_plan::process(&accounts, self.now)?;
        self.close(&plan, &merchant);
        Ok(())
    }

    fn subscribe(&mut self, subscriber: Address, merchant: Address, plan: Address, plan_id: u64, plan_bump: u8, mint: Address, payer: Option<Address>) -> Result<(), SubscriptionsError> {
        let sa = find_subscription_authority_pda(&subscriber, &mint).unwrap().0;
        let subscription = find_subscription_pda(&plan, &subscriber).unwrap().0;
        let mut accounts = vec![
            self.info(&subscriber, true, true),
            self.info(&merchant, false, false),
            self.info(&plan, false, false),
            self.info(&subscription, false, true),
            self.info(&sa, false, false),
            self.info(&Address::default(), false, false),
            self.info(&Address::new_from_array([0xEAu8; 32]), false, false),
            self.info(&program_id(), false, false),
        ];
        if let Some(p) = payer {
            accounts.push(self.info(&p, true, true));
        }
        let picked = SubscribeAccounts::try_from(&accounts)?;
        let live = Plan::load(&accounts[2].data)?;
        let authority_init_id = accounts[4].data[98..106].try_into().map(i64::from_le_bytes).unwrap_or(0);
        let data = SubscribeData {
            plan_id,
            plan_bump,
            expected_mint: live.data.mint,
            expected_amount: live.data.terms.amount,
            expected_period_hours: live.data.terms.period_hours,
            expected_created_at: live.data.terms.created_at,
            expected_subscription_authority_init_id: authority_init_id,
        };
        let (sub, _) = subscribe::process(
            &accounts[0].address,
            &accounts[1].address,
            &accounts[2].address,
            &accounts[2].data,
            &accounts[4].data,
            &accounts[3].address,
            accounts[3].data.len(),
            &accounts[picked.payer].address,
            &data,
            self.now,
        )?;
        let p = accounts[picked.payer].address;
        self.create(&p, &subscription, sub.to_bytes());
        Ok(())
    }

    fn cancel(&mut self, subscriber: Address, plan: Address, subscription: Address) -> Result<(), SubscriptionsError> {
        let accounts = vec![
            self.info(&subscriber, true, false),
            self.info(&plan, false, false),
            self.info(&subscription, false, true),
            self.info(&Address::new_from_array([0xEAu8; 32]), false, false),
            self.info(&program_id(), false, false),
        ];
        CancelSubscriptionAccounts::try_from(&accounts)?;
        let mut sub = SubscriptionDelegation::load(&accounts[2].data)?;
        let plan_model = if accounts[1].owner == program_id() { Some(Plan::load(&accounts[1].data)?) } else { None };
        cancel_subscription::cancel(&mut sub, &subscriber, &plan, plan_model.as_ref(), self.now)?;
        self.write(&subscription, sub.to_bytes());
        Ok(())
    }
}

fn setup() -> (Bank, Address) {
    let mut bank = Bank::new();
    let user = bank.init_wallet(10_000_000_000);
    (bank, user)
}

fn setup_delegator() -> (Bank, Address, Address) {
    let (mut bank, user) = setup();
    let mint = bank.init_mint();
    bank.init_ata(mint, user);
    bank.initialize_subscription_authority(user, mint).unwrap();
    (bank, user, mint)
}

fn closed(bank: &Bank, a: &Address) -> bool {
    bank.lamports(a) == 0
}

#[test]
fn revoke_fixed_delegation() {
    let (mut bank, payer, mint) = setup_delegator();
    let delegatee = bank.unique();
    let (res, delegation_pda) = bank.create_fixed(payer, mint, delegatee, 0, 100, bank.current_ts() + 1000, None);
    res.unwrap();
    let binding = bank.get(&delegation_pda).unwrap().clone();
    let delegation_rent = binding.lamports;
    let delegation = FixedDelegation::load(&binding.data).unwrap();
    assert_eq!(delegation.header.discriminator, AccountDiscriminator::FixedDelegation.as_u8());
    let before = bank.lamports(&payer);
    bank.revoke(payer, delegation_pda, None).unwrap();
    assert!(closed(&bank, &delegation_pda));
    let after = bank.lamports(&payer);
    assert!(after > before);
    assert!(after >= before + delegation_rent - 10000);
}

#[test]
fn revoke_recurring_delegation() {
    let (mut bank, payer, mint) = setup_delegator();
    let delegatee = bank.unique();
    let expiry_ts = bank.current_ts() + days(2) as i64;
    let now = bank.current_ts();
    let (res, delegation_pda) = bank.create_recurring(payer, mint, delegatee, 0, 100, days(1), now, expiry_ts, None);
    res.unwrap();
    let binding = bank.get(&delegation_pda).unwrap().clone();
    let delegation_rent = binding.lamports;
    let delegation = RecurringDelegation::load(&binding.data).unwrap();
    assert_eq!(delegation.header.discriminator, AccountDiscriminator::RecurringDelegation.as_u8());
    let before = bank.lamports(&payer);
    bank.revoke(payer, delegation_pda, None).unwrap();
    assert!(closed(&bank, &delegation_pda));
    let after = bank.lamports(&payer);
    assert!(after > before);
    assert!(after >= before + delegation_rent - 10000);
}

#[test]
fn non_delegator_cannot_revoke() {
    let (mut bank, payer, mint) = setup_delegator();
    let delegatee = bank.unique();
    let expiry_ts = bank.current_ts() + days(2) as i64;
    let now = bank.current_ts();
    let (res, delegation_pda) = bank.create_recurring(payer, mint, delegatee, 0, 100, days(1), now, expiry_ts, None);
    res.unwrap();
    let attacker = bank.init_wallet(1_000_000_000);
    assert!(bank.revoke(attacker, delegation_pda, None).is_err());
    assert!(bank.lamports(&delegation_pda) > 0);
}

#[test]
fn revoke_delegation_closed_account_is_zeroed() {
    let (mut bank, payer, mint) = setup_delegator();
    let delegatee = bank.unique();
    let (res, delegation_pda) = bank.create_fixed(payer, mint, delegatee, 0, 100, bank.current_ts() + 1000, None);
    res.unwrap();
    bank.revoke(payer, delegation_pda, None).unwrap();
    if let Some(account) = bank.get(&delegation_pda) {
        assert!(account.data.iter().all(|&byte| byte == 0), "All data should be zeroed after close");
    }
}

#[test]
fn revoke_with_wrong_receiver_returns_unauthorized() {
    let (mut bank, delegator, mint) = setup_delegator();
    let sponsor = bank.init_wallet(10_000_000_000);
    let wrong_receiver = bank.init_wallet(10_000_000_000);
    let delegatee = bank.unique();
    let (res, pda) = bank.create_fixed(delegator, mint, delegatee, 0, 100, bank.current_ts() + 1000, Some(sponsor));
    res.unwrap();
    assert_eq!(bank.revoke(delegator, pda, Some(wrong_receiver)), Err(SubscriptionsError::Unauthorized));
}

#[test]
fn revoke_delegation_writable_accounts_must_be_writable() {
    let (mut bank, payer, mint) = setup_delegator();
    let delegatee = bank.unique();
    let (res, pda) = bank.create_fixed(payer, mint, delegatee, 0, 100, bank.current_ts() + 1000, None);
    res.unwrap();
    for idx in 0..2usize {
        let mut accounts = vec![bank.info(&payer, true, true), bank.info(&pda, false, true)];
        accounts[idx].is_writable = false;
        assert_eq!(revoke_delegation::process(&accounts, bank.current_ts()), Err(SubscriptionsError::AccountNotWritable));
    }
}

#[test]
fn revoke_delegation_signer_accounts_must_be_signers() {
    let (mut bank, payer, mint) = setup_delegator();
    let delegatee = bank.unique();
    let (res, pda) = bank.create_fixed(payer, mint, delegatee, 0, 100, bank.current_ts() + 1000, None);
    res.unwrap();
    let mut accounts = vec![bank.info(&payer, true, true), bank.info(&pda, false, true)];
    accounts[0].is_signer = false;
    assert_eq!(revoke_delegation::process(&accounts, bank.current_ts()), Err(SubscriptionsError::NotSigner));
}

#[test]
fn test_revoke_fixed_version_agnostic() {
    let (mut bank, user, mint) = setup_delegator();
    let delegatee = bank.unique();
    let (res, pda) = bank.create_fixed(user, mint, delegatee, 0, 100, bank.current_ts() + 1000, None);
    res.unwrap();
    let i = bank.find(&pda).unwrap();
    bank.accounts[i].data[1] = 0;
    bank.revoke(user, pda, None).unwrap();
    assert!(closed(&bank, &pda));
}

#[test]
fn test_revoke_recurring_version_agnostic() {
    let (mut bank, user, mint) = setup_delegator();
    let delegatee = bank.unique();
    let now = bank.current_ts();
    let (res, pda) = bank.create_recurring(user, mint, delegatee, 0, 100, days(1), now, now + days(2) as i64, None);
    res.unwrap();
    let i = bank.find(&pda).unwrap();
    bank.accounts[i].data[1] = 0;
    bank.revoke(user, pda, None).unwrap();
    assert!(closed(&bank, &pda));
}

#[test]
fn sponsor_can_revoke_expired_fixed_delegation() {
    let (mut bank, delegator, mint) = setup_delegator();
    let sponsor = bank.init_wallet(10_000_000_000);
    let delegatee = bank.unique();
    let expiry_ts = bank.current_ts() + hours(1) as i64;
    let (res, pda) = bank.create_fixed(delegator, mint, delegatee, 0, 100, expiry_ts, Some(sponsor));
    res.unwrap();
    let rent = bank.lamports(&pda);
    bank.move_clock_forward(hours(2));
    let before = bank.lamports(&sponsor);
    bank.revoke(sponsor, pda, None).unwrap();
    assert!(closed(&bank, &pda));
    assert!(bank.lamports(&sponsor) >= before + rent - 10000);
}

#[test]
fn sponsor_can_revoke_expired_recurring_delegation() {
    let (mut bank, delegator, mint) = setup_delegator();
    let sponsor = bank.init_wallet(10_000_000_000);
    let delegatee = bank.unique();
    let now = bank.current_ts();
    let expiry_ts = now + days(2) as i64;
    let (res, pda) = bank.create_recurring(delegator, mint, delegatee, 0, 100, days(1), now, expiry_ts, Some(sponsor));
    res.unwrap();
    let rent = bank.lamports(&pda);
    bank.move_clock_forward(days(3));
    let before = bank.lamports(&sponsor);
    bank.revoke(sponsor, pda, None).unwrap();
    assert!(closed(&bank, &pda));
    assert!(bank.lamports(&sponsor) >= before + rent - 10000);
}

#[test]
fn sponsor_cannot_revoke_non_expired_fixed_delegation() {
    let (mut bank, delegator, mint) = setup_delegator();
    let sponsor = bank.init_wallet(10_000_000_000);
    let delegatee = bank.unique();
    let expiry_ts = bank.current_ts() + hours(2) as i64;
    let (res, pda) = bank.create_fixed(delegator, mint, delegatee, 0, 100, expiry_ts, Some(sponsor));
    res.unwrap();
    assert_eq!(bank.revoke(sponsor, pda, None), Err(SubscriptionsError::Unauthorized));
}

#[test]
fn sponsor_cannot_revoke_non_expired_recurring_delegation() {
    let (mut bank, delegator, mint) = setup_delegator();
    let sponsor = bank.init_wallet(10_000_000_000);
    let delegatee = bank.unique();
    let now = bank.current_ts();
    let (res, pda) = bank.create_recurring(delegator, mint, delegatee, 0, 100, days(1), now, now + days(2) as i64, Some(sponsor));
    res.unwrap();
    assert_eq!(bank.revoke(sponsor, pda, None), Err(SubscriptionsError::Unauthorized));
}

#[test]
fn sponsor_cannot_revoke_no_expiry_delegation() {
    let (mut bank, delegator, mint) = setup_delegator();
    let sponsor = bank.init_wallet(10_000_000_000);
    let delegatee = bank.unique();
    let (res, pda) = bank.create_fixed(delegator, mint, delegatee, 0, 100, 0, Some(sponsor));
    res.unwrap();
    bank.move_clock_forward(days(365));
    assert_eq!(bank.revoke(sponsor, pda, None), Err(SubscriptionsError::Unauthorized));
}

#[test]
fn delegator_can_revoke_sponsor_funded_before_expiry() {
    let (mut bank, delegator, mint) = setup_delegator();
    let sponsor = bank.init_wallet(10_000_000_000);
    let delegatee = bank.unique();
    let expiry_ts = bank.current_ts() + hours(2) as i64;
    let (res, pda) = bank.create_fixed(delegator, mint, delegatee, 0, 100, expiry_ts, Some(sponsor));
    res.unwrap();
    let rent = bank.lamports(&pda);
    let before = bank.lamports(&sponsor);
    bank.revoke(delegator, pda, Some(sponsor)).unwrap();
    assert!(closed(&bank, &pda));
    assert!(bank.lamports(&sponsor) >= before + rent - 10000);
}

#[test]
fn attacker_cannot_revoke_sponsor_funded_delegation() {
    let (mut bank, delegator, mint) = setup_delegator();
    let sponsor = bank.init_wallet(10_000_000_000);
    let attacker = bank.init_wallet(10_000_000_000);
    let delegatee = bank.unique();
    let expiry_ts = bank.current_ts() + hours(1) as i64;
    let (res, pda) = bank.create_fixed(delegator, mint, delegatee, 0, 100, expiry_ts, Some(sponsor));
    res.unwrap();
    bank.move_clock_forward(hours(2));
    assert_eq!(bank.revoke(attacker, pda, Some(sponsor)), Err(SubscriptionsError::Unauthorized));
}

/// A merchant's plan with `period_hours`, ending at `end_ts`, and alice's
/// SubscriptionAuthority for its mint; as the helpers of the subscribe tests.
fn setup_plan(period_hours: u64, end_ts: i64) -> (Bank, Address, Address, Address, Address, u8) {
    let (mut bank, alice) = setup();
    let merchant = bank.init_wallet(10_000_000_000);
    let mint = bank.init_mint();
    bank.init_ata(mint, alice);
    bank.initialize_subscription_authority(alice, mint).unwrap();
    let (res, plan_pda) = bank.create_plan(merchant, mint, 1, 50_000_000, period_hours, end_ts);
    res.unwrap();
    let (_, plan_bump) = find_plan_pda(&merchant, 1).unwrap();
    (bank, alice, merchant, mint, plan_pda, plan_bump)
}

fn setup_with_subscription() -> (Bank, Address, Address, Address, Address, u8, Address) {
    let end_ts = START + days(30) as i64;
    let (mut bank, alice, merchant, mint, plan_pda, plan_bump) = setup_plan(1, end_ts);
    bank.subscribe(alice, merchant, plan_pda, 1, plan_bump, mint, None).unwrap();
    let subscription_pda = find_subscription_pda(&plan_pda, &alice).unwrap().0;
    (bank, alice, merchant, mint, plan_pda, plan_bump, subscription_pda)
}

fn setup_sponsored_subscription(plan_end_ts: i64) -> (Bank, Address, Address, Address, Address, Address) {
    let (mut bank, alice, merchant, mint, plan_pda, plan_bump) = setup_plan(1, plan_end_ts);
    let sponsor = bank.init_wallet(10_000_000_000);
    bank.subscribe(alice, merchant, plan_pda, 1, plan_bump, mint, Some(sponsor)).unwrap();
    let subscription_pda = find_subscription_pda(&plan_pda, &alice).unwrap().0;
    (bank, alice, merchant, sponsor, plan_pda, subscription_pda)
}

#[test]
fn revoke_subscription_without_cancel_rejected() {
    let (mut bank, alice, _merchant, _mint, plan_pda, _, subscription_pda) = setup_with_subscription();
    assert_eq!(
        bank.revoke_subscription(alice, subscription_pda, plan_pda, None),
        Err(SubscriptionsError::SubscriptionNotCancelled)
    );
    assert!(bank.lamports(&subscription_pda) > 0);
}

#[test]
fn revoke_subscription_after_cancel_succeeds() {
    let (mut bank, alice, _merchant, _mint, plan_pda, _plan_bump, subscription_pda) = setup_with_subscription();
    let before = bank.lamports(&alice);
    bank.cancel(alice, plan_pda, subscription_pda).unwrap();
    bank.move_clock_forward(hours(1));
    bank.revoke_subscription(alice, subscription_pda, plan_pda, None).unwrap();
    assert!(closed(&bank, &subscription_pda), "Subscription PDA should be closed");
    assert!(bank.lamports(&alice) > before - 10000);
}

#[test]
fn revoke_subscription_with_future_expires_at_ts_rejected() {
    let (mut bank, alice, _merchant, _mint, plan_pda, _, subscription_pda) = setup_with_subscription();
    let i = bank.find(&subscription_pda).unwrap();
    let mut sub = SubscriptionDelegation::load(&bank.accounts[i].data).unwrap();
    sub.expires_at_ts = bank.current_ts() + days(1) as i64;
    bank.accounts[i].data = sub.to_bytes();
    assert_eq!(
        bank.revoke_subscription(alice, subscription_pda, plan_pda, None),
        Err(SubscriptionsError::SubscriptionNotCancelled)
    );
    assert!(bank.lamports(&subscription_pda) > 0);
}

#[test]
fn test_revoke_subscription_version_mismatch() {
    let (mut bank, alice, _merchant, _mint, plan_pda, _, subscription_pda) = setup_with_subscription();
    bank.cancel(alice, plan_pda, subscription_pda).unwrap();
    bank.move_clock_forward(hours(1));
    let i = bank.find(&subscription_pda).unwrap();
    bank.accounts[i].data[1] = 0;
    assert_eq!(
        bank.revoke_subscription(alice, subscription_pda, plan_pda, None),
        Err(SubscriptionsError::MigrationRequired)
    );
}

#[test]
fn sponsor_revoke_subscription_when_plan_ended() {
    let plan_end_ts = START + hours(2) as i64;
    let (mut bank, _alice, _merchant, sponsor, plan_pda, subscription_pda) = setup_sponsored_subscription(plan_end_ts);
    let rent = bank.lamports(&subscription_pda);
    let before = bank.lamports(&sponsor);
    bank.move_clock_forward(hours(3));
    bank.revoke_subscription(sponsor, subscription_pda, plan_pda, None).unwrap();
    assert!(closed(&bank, &subscription_pda));
    assert!(bank.lamports(&sponsor) >= before + rent - 10_000);
}

#[test]
fn sponsor_revoke_subscription_when_plan_closed() {
    let plan_end_ts = START + hours(2) as i64;
    let (mut bank, _alice, merchant, sponsor, plan_pda, subscription_pda) = setup_sponsored_subscription(plan_end_ts);
    bank.update_plan(merchant, plan_pda, PlanStatus::Sunset, plan_end_ts).unwrap();
    bank.move_clock_forward(hours(3));
    bank.delete_plan(merchant, plan_pda).unwrap();
    bank.revoke_subscription(sponsor, subscription_pda, plan_pda, None).unwrap();
    assert!(closed(&bank, &subscription_pda));
}

#[test]
fn sponsor_revoke_subscription_when_plan_recreated_with_different_terms() {
    let plan_end_ts = START + hours(2) as i64;
    let (mut bank, _alice, merchant, sponsor, plan_pda, subscription_pda) = setup_sponsored_subscription(plan_end_ts);
    bank.update_plan(merchant, plan_pda, PlanStatus::Sunset, plan_end_ts).unwrap();
    bank.move_clock_forward(hours(3));
    bank.delete_plan(merchant, plan_pda).unwrap();
    let new_end_ts = bank.current_ts() + days(60) as i64;
    let mint = bank.init_mint();
    let (res, recreated_plan_pda) = bank.create_plan(merchant, mint, 1, 999_000_000, 720, new_end_ts);
    res.unwrap();
    assert_eq!(recreated_plan_pda, plan_pda);
    let rent = bank.lamports(&subscription_pda);
    let before = bank.lamports(&sponsor);
    bank.revoke_subscription(sponsor, subscription_pda, plan_pda, None).unwrap();
    assert!(closed(&bank, &subscription_pda));
    assert!(bank.lamports(&sponsor) >= before + rent - 10_000);
}

#[test]
fn sponsor_revoke_subscription_when_cancelled_and_expired() {
    let plan_end_ts = START + days(30) as i64;
    let (mut bank, alice, _merchant, sponsor, plan_pda, subscription_pda) = setup_sponsored_subscription(plan_end_ts);
    bank.cancel(alice, plan_pda, subscription_pda).unwrap();
    bank.move_clock_forward(hours(2));
    let rent = bank.lamports(&subscription_pda);
    let before = bank.lamports(&sponsor);
    bank.revoke_subscription(sponsor, subscription_pda, plan_pda, None).unwrap();
    assert!(bank.lamports(&sponsor) >= before + rent - 10_000);
}

#[test]
fn sponsor_revoke_active_subscription_rejected() {
    let plan_end_ts = START + days(30) as i64;
    let (mut bank, _alice, _merchant, sponsor, plan_pda, subscription_pda) = setup_sponsored_subscription(plan_end_ts);
    assert_eq!(
        bank.revoke_subscription(sponsor, subscription_pda, plan_pda, None),
        Err(SubscriptionsError::Unauthorized)
    );
}

#[test]
fn sponsor_revoke_subscription_with_wrong_plan_pda_rejected() {
    let plan_end_ts = START + hours(2) as i64;
    let (mut bank, _alice, merchant, sponsor, _plan_pda, subscription_pda) = setup_sponsored_subscription(plan_end_ts);
    let mint = bank.init_mint();
    let other_plan_end = bank.current_ts() + days(60) as i64;
    let (res, other_plan_pda) = bank.create_plan(merchant, mint, 99, 1_000, 24, other_plan_end);
    res.unwrap();
    bank.move_clock_forward(hours(3));
    assert_eq!(
        bank.revoke_subscription(sponsor, subscription_pda, other_plan_pda, None),
        Err(SubscriptionsError::SubscriptionPlanMismatch)
    );
}

#[test]
fn attacker_cannot_revoke_sponsor_funded_subscription() {
    let plan_end_ts = START + hours(2) as i64;
    let (mut bank, _alice, _merchant, _sponsor, plan_pda, subscription_pda) = setup_sponsored_subscription(plan_end_ts);
    let attacker = bank.init_wallet(10_000_000_000);
    bank.move_clock_forward(hours(3));
    assert_eq!(
        bank.revoke_subscription(attacker, subscription_pda, plan_pda, None),
        Err(SubscriptionsError::Unauthorized)
    );
}

#[test]
fn subscriber_revoke_routes_rent_to_sponsor() {
    let plan_end_ts = START + days(30) as i64;
    let (mut bank, alice, _merchant, sponsor, plan_pda, subscription_pda) = setup_sponsored_subscription(plan_end_ts);
    bank.cancel(alice, plan_pda, subscription_pda).unwrap();
    bank.move_clock_forward(hours(2));
    let rent = bank.lamports(&subscription_pda);
    let before = bank.lamports(&sponsor);
    bank.revoke_subscription(alice, subscription_pda, plan_pda, Some(sponsor)).unwrap();
    assert!(bank.lamports(&sponsor) >= before + rent - 10_000);
}

#[test]
fn subscribe_happy_path() {
    let end_ts = START + days(30) as i64;
    let (mut bank, alice, merchant, mint, plan_pda, plan_bump) = setup_plan(1, end_ts);
    bank.subscribe(alice, merchant, plan_pda, 1, plan_bump, mint, None).unwrap();
    let subscription_pda = find_subscription_pda(&plan_pda, &alice).unwrap().0;
    let account = bank.get(&subscription_pda).unwrap();
    assert_eq!(account.data.len(), SubscriptionDelegation::LEN);
    let sub = SubscriptionDelegation::load(&account.data).unwrap();
    assert_eq!(sub.header.discriminator, AccountDiscriminator::SubscriptionDelegation.as_u8());
    assert_eq!(sub.header.delegator, alice);
    assert_eq!(sub.header.delegatee, plan_pda);
    assert_eq!(sub.header.payer, alice);
    assert_eq!({ sub.amount_pulled_in_period }, 0);
    assert_eq!({ sub.expires_at_ts }, 0);
}

#[test]
fn subscribe_plan_sunset_rejected() {
    let end_ts = START + days(30) as i64;
    let (mut bank, alice, merchant, mint, plan_pda, plan_bump) = setup_plan(1, end_ts);
    bank.update_plan(merchant, plan_pda, PlanStatus::Sunset, end_ts).unwrap();
    assert_eq!(bank.subscribe(alice, merchant, plan_pda, 1, plan_bump, mint, None), Err(SubscriptionsError::PlanSunset));
}

#[test]
fn subscribe_plan_expired_rejected() {
    let end_ts = START + days(2) as i64;
    let (mut bank, alice, merchant, mint, plan_pda, plan_bump) = setup_plan(1, end_ts);
    bank.move_clock_forward(days(3));
    assert_eq!(bank.subscribe(alice, merchant, plan_pda, 1, plan_bump, mint, None), Err(SubscriptionsError::PlanExpired));
}

#[test]
fn subscribe_mint_mismatch_rejected() {
    let end_ts = START + days(30) as i64;
    let (mut bank, alice, merchant, _mint, plan_pda, plan_bump) = setup_plan(1, end_ts);
    let other_mint = bank.init_mint();
    bank.init_ata(other_mint, alice);
    bank.initialize_subscription_authority(alice, other_mint).unwrap();
    assert_eq!(
        bank.subscribe(alice, merchant, plan_pda, 1, plan_bump, other_mint, None),
        Err(SubscriptionsError::MintMismatch)
    );
}

#[test]
fn subscribe_non_subscriber_subscription_authority_rejected() {
    let end_ts = START + days(30) as i64;
    let (mut bank, _alice, merchant, mint, plan_pda, plan_bump) = setup_plan(1, end_ts);
    let bob = bank.init_wallet(10_000_000_000);
    bank.init_ata(mint, bob);
    bank.initialize_subscription_authority(bob, mint).unwrap();
    bank.subscribe(bob, merchant, plan_pda, 1, plan_bump, mint, None).unwrap();
}

#[test]
fn subscribe_no_subscription_authority_rejected() {
    let end_ts = START + days(30) as i64;
    let (mut bank, _alice, merchant, mint, plan_pda, plan_bump) = setup_plan(1, end_ts);
    let charlie = bank.init_wallet(10_000_000_000);
    bank.init_ata(mint, charlie);
    assert_eq!(
        bank.subscribe(charlie, merchant, plan_pda, 1, plan_bump, mint, None),
        Err(SubscriptionsError::InvalidSubscriptionAuthorityPda)
    );
}

#[test]
fn subscribe_with_sponsor() {
    let end_ts = START + days(30) as i64;
    let (mut bank, alice, merchant, mint, plan_pda, plan_bump) = setup_plan(1, end_ts);
    let sponsor = bank.init_wallet(10_000_000_000);
    let alice_before = bank.lamports(&alice);
    let sponsor_before = bank.lamports(&sponsor);
    bank.subscribe(alice, merchant, plan_pda, 1, plan_bump, mint, Some(sponsor)).unwrap();
    assert_eq!(bank.lamports(&alice), alice_before);
    assert!(bank.lamports(&sponsor) < sponsor_before);
    let subscription_pda = find_subscription_pda(&plan_pda, &alice).unwrap().0;
    let sub = SubscriptionDelegation::load(&bank.get(&subscription_pda).unwrap().data).unwrap();
    assert_eq!(sub.header.payer, sponsor);
    assert_eq!(sub.header.delegator, alice);
}

#[test]
fn subscribe_duplicate_rejected() {
    let end_ts = START + days(30) as i64;
    let (mut bank, alice, merchant, mint, plan_pda, plan_bump) = setup_plan(1, end_ts);
    bank.subscribe(alice, merchant, plan_pda, 1, plan_bump, mint, None).unwrap();
    assert_eq!(
        bank.subscribe(alice, merchant, plan_pda, 1, plan_bump, mint, None),
        Err(SubscriptionsError::AlreadySubscribed)
    );
}
