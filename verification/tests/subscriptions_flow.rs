use subscriptions::accounts::AccountInfo;
use subscriptions::address::Address;
use subscriptions::errors::SubscriptionsError;
use subscriptions::instructions::cancel_subscription;
use subscriptions::instructions::create_plan;
use subscriptions::instructions::initialize_subscription_authority::initialize;
use subscriptions::instructions::resume_subscription::{self, ResumeData};
use subscriptions::instructions::revoke_delegation;
use subscriptions::instructions::subscribe::{self, SubscribeData};
use subscriptions::pda::{find_plan_pda, find_subscription_pda, program_id};
use subscriptions::state::plan::{Plan, PlanData, PlanTerms};
use subscriptions::state::subscription_authority::SubscriptionAuthority;
use subscriptions::state::subscription_delegation::SubscriptionDelegation;

const NOW: i64 = 1_700_000_000;
const HOUR: i64 = 3600;

fn addr(b: u8) -> Address {
    Address::new_from_array([b; 32])
}

fn token_account(mint: &Address, owner: &Address) -> Vec<u8> {
    let mut data = vec![0u8; 165];
    data[..32].copy_from_slice(&mint.bytes);
    data[32..64].copy_from_slice(&owner.bytes);
    data
}

fn account(address: Address, owner: Address, is_signer: bool, is_writable: bool, data: Vec<u8>) -> AccountInfo {
    AccountInfo { address, owner, is_signer, is_writable, lamports: 1_000_000, data }
}

struct World {
    merchant: Address,
    subscriber: Address,
    mint: Address,
    plan_address: Address,
    plan: Plan,
    authority: SubscriptionAuthority,
    subscription_address: Address,
    subscription: SubscriptionDelegation,
}

fn plan_data(mint: Address, period_hours: u64, end_ts: i64) -> PlanData {
    PlanData {
        plan_id: 7,
        mint,
        terms: PlanTerms { amount: 1_000, period_hours, created_at: 0 },
        end_ts,
        destinations: [Address::default(); 4],
        pullers: [Address::default(); 4],
        metadata_uri: [0u8; 128],
    }
}

fn world(period_hours: u64, end_ts: i64) -> World {
    let merchant = addr(1);
    let subscriber = addr(2);
    let mint = addr(3);
    let (plan_address, plan_bump) = find_plan_pda(&merchant, 7).unwrap();
    let (plan, bump) =
        create_plan::create(&merchant, &plan_address, 0, &mint, &plan_data(mint, period_hours, end_ts), NOW - 10)
            .unwrap();
    assert_eq!(bump, plan_bump);
    let sa_address = subscriptions::pda::find_subscription_authority_pda(&subscriber, &mint).unwrap().0;
    let (_, record) =
        initialize(&subscriber, &mint, &sa_address, 0, &subscriber, &token_account(&mint, &subscriber), 55).unwrap();
    let authority = record.unwrap();
    let subscription_address = find_subscription_pda(&plan_address, &subscriber).unwrap().0;
    let data = SubscribeData {
        plan_id: 7,
        plan_bump,
        expected_mint: mint,
        expected_amount: 1_000,
        expected_period_hours: period_hours,
        expected_created_at: NOW - 10,
        expected_subscription_authority_init_id: 55,
    };
    let (subscription, _) = subscribe::process(
        &subscriber,
        &merchant,
        &plan_address,
        &plan.to_bytes(),
        &authority.to_bytes(),
        &subscription_address,
        0,
        &subscriber,
        &data,
        NOW,
    )
    .unwrap();
    World { merchant, subscriber, mint, plan_address, plan, authority, subscription_address, subscription }
}

#[test]
fn subscribe_binds_live_terms_and_opens_a_period_now() {
    let w = world(1, 0);
    assert_eq!(w.subscription.terms, w.plan.data.terms);
    assert_eq!(w.subscription.current_period_start_ts, NOW);
    assert_eq!(w.subscription.amount_pulled_in_period, 0);
    assert_eq!(w.subscription.expires_at_ts, 0);
    assert_eq!(w.subscription.header.delegator, w.subscriber);
    assert_eq!(w.subscription.header.delegatee, w.plan_address);
    assert_eq!(w.subscription.header.init_id, 55);
    assert_eq!(w.plan.owner, w.merchant);
    assert_eq!(w.authority.token_mint, w.mint);
}

#[test]
fn subscribe_refuses_changed_terms_and_duplicates() {
    let w = world(1, 0);
    let (_, plan_bump) = find_plan_pda(&w.merchant, 7).unwrap();
    let mut data = SubscribeData {
        plan_id: 7,
        plan_bump,
        expected_mint: w.mint,
        expected_amount: 999,
        expected_period_hours: 1,
        expected_created_at: NOW - 10,
        expected_subscription_authority_init_id: 55,
    };
    let call = |data: &SubscribeData, len: usize| {
        subscribe::process(
            &w.subscriber,
            &w.merchant,
            &w.plan_address,
            &w.plan.to_bytes(),
            &w.authority.to_bytes(),
            &w.subscription_address,
            len,
            &w.subscriber,
            data,
            NOW,
        )
    };
    assert_eq!(call(&data, 0), Err(SubscriptionsError::PlanTermsMismatch));
    data.expected_amount = 1_000;
    data.expected_subscription_authority_init_id = 54;
    assert_eq!(call(&data, 0), Err(SubscriptionsError::StaleSubscriptionAuthority));
    data.expected_subscription_authority_init_id = 55;
    assert_eq!(call(&data, 155), Err(SubscriptionsError::AlreadySubscribed));
    data.plan_id = 8;
    assert_eq!(call(&data, 0), Err(SubscriptionsError::InvalidPlanPda));
}

#[test]
fn cancel_expires_at_end_of_paid_period() {
    let w = world(1, 0);
    let mut sub = w.subscription;
    let expires = cancel_subscription::cancel(&mut sub, &w.subscriber, &w.plan_address, Some(&w.plan), NOW + 10)
        .unwrap();
    assert_eq!(expires, NOW + HOUR);
    assert_eq!(sub.expires_at_ts, NOW + HOUR);
    let again = cancel_subscription::cancel(&mut sub, &w.subscriber, &w.plan_address, Some(&w.plan), NOW + 20);
    assert_eq!(again, Err(SubscriptionsError::SubscriptionAlreadyCancelled));
}

#[test]
fn cancel_is_capped_at_plan_end_and_immediate_for_closed_plan() {
    let w = world(1, NOW + 90 * 60);
    let mut sub = w.subscription;
    let expires =
        cancel_subscription::cancel(&mut sub, &w.subscriber, &w.plan_address, Some(&w.plan), NOW + HOUR + 100).unwrap();
    assert_eq!(expires, NOW + 90 * 60);
    let mut sub2 = w.subscription;
    let expires2 = cancel_subscription::cancel(&mut sub2, &w.subscriber, &w.plan_address, None, NOW + 5).unwrap();
    assert_eq!(expires2, NOW + 5);
    let mut sub3 = w.subscription;
    assert_eq!(
        cancel_subscription::cancel(&mut sub3, &addr(9), &w.plan_address, None, NOW),
        Err(SubscriptionsError::Unauthorized)
    );
    assert_eq!(sub3, w.subscription);
}

#[test]
fn resume_undoes_cancel() {
    let w = world(1, 0);
    let mut sub = w.subscription;
    let expires =
        cancel_subscription::cancel(&mut sub, &w.subscriber, &w.plan_address, Some(&w.plan), NOW + 10).unwrap();
    let plan_bytes = w.plan.to_bytes();
    let data = ResumeData { expected_expires_at_ts: expires };
    resume_subscription::resume(
        &mut sub,
        &w.subscriber,
        &w.plan_address,
        Some(&plan_bytes),
        &w.authority.to_bytes(),
        &data,
        NOW + 20,
    )
    .unwrap();
    assert_eq!(sub, w.subscription);
}

#[test]
fn resume_is_refused_after_expiry_or_with_stale_view() {
    let w = world(1, 0);
    let mut sub = w.subscription;
    let expires =
        cancel_subscription::cancel(&mut sub, &w.subscriber, &w.plan_address, Some(&w.plan), NOW + 10).unwrap();
    let plan_bytes = w.plan.to_bytes();
    let authority = w.authority.to_bytes();
    let stale = ResumeData { expected_expires_at_ts: expires - 1 };
    assert_eq!(
        resume_subscription::resume(&mut sub, &w.subscriber, &w.plan_address, Some(&plan_bytes), &authority, &stale, NOW + 20),
        Err(SubscriptionsError::SubscriptionCancelled)
    );
    let data = ResumeData { expected_expires_at_ts: expires };
    assert_eq!(
        resume_subscription::resume(&mut sub, &w.subscriber, &w.plan_address, Some(&plan_bytes), &authority, &data, expires),
        Err(SubscriptionsError::SubscriptionCancelled)
    );
    assert_eq!(
        resume_subscription::resume(&mut sub, &w.subscriber, &w.plan_address, None, &authority, &data, NOW + 20),
        Err(SubscriptionsError::PlanClosed)
    );
    assert_eq!(sub.expires_at_ts, expires);
    let mut fresh = w.subscription;
    assert_eq!(
        resume_subscription::resume(&mut fresh, &w.subscriber, &w.plan_address, Some(&plan_bytes), &authority, &data, NOW),
        Err(SubscriptionsError::SubscriptionNotCancelled)
    );
}

fn revoke_accounts(w: &World, authority: Address, sub: &SubscriptionDelegation, plan: Option<&Plan>) -> Vec<AccountInfo> {
    let plan_account = match plan {
        Some(p) => account(w.plan_address, program_id(), false, false, p.to_bytes()),
        None => account(w.plan_address, Address::default(), false, false, vec![]),
    };
    vec![
        account(authority, Address::default(), true, true, vec![]),
        account(w.subscription_address, program_id(), false, true, sub.to_bytes()),
        plan_account,
    ]
}

#[test]
fn subscriber_cannot_revoke_live_subscription() {
    let w = world(1, 0);
    let accounts = revoke_accounts(&w, w.subscriber, &w.subscription, Some(&w.plan));
    assert_eq!(revoke_delegation::process(&accounts, NOW + 10), Err(SubscriptionsError::SubscriptionNotCancelled));
}

#[test]
fn subscriber_revokes_once_cancellation_takes_effect() {
    let w = world(1, 0);
    let mut sub = w.subscription;
    cancel_subscription::cancel(&mut sub, &w.subscriber, &w.plan_address, Some(&w.plan), NOW).unwrap();
    let accounts = revoke_accounts(&w, w.subscriber, &sub, Some(&w.plan));
    assert_eq!(revoke_delegation::process(&accounts, NOW + HOUR - 1), Err(SubscriptionsError::SubscriptionNotCancelled));
    assert_eq!(revoke_delegation::process(&accounts, NOW + HOUR), Ok(0));
}

#[test]
fn subscriber_cannot_revoke_before_expiry() {
    let w = world(1, 0);
    let mut sub = w.subscription;
    sub.expires_at_ts = NOW + 24 * HOUR;
    let accounts = revoke_accounts(&w, w.subscriber, &sub, Some(&w.plan));
    assert_eq!(revoke_delegation::process(&accounts, NOW), Err(SubscriptionsError::SubscriptionNotCancelled));
}

#[test]
fn stranger_cannot_revoke_subscription() {
    let w = world(1, 0);
    let accounts = revoke_accounts(&w, addr(66), &w.subscription, Some(&w.plan));
    assert_eq!(revoke_delegation::process(&accounts, NOW), Err(SubscriptionsError::Unauthorized));
}

fn cancel_accounts(w: &World, subscriber: Address, plan: AccountInfo, sub: &SubscriptionDelegation) -> Vec<AccountInfo> {
    vec![
        account(subscriber, Address::default(), true, false, vec![]),
        plan,
        account(w.subscription_address, program_id(), false, true, sub.to_bytes()),
        account(addr(30), Address::default(), false, false, vec![]),
        account(program_id(), Address::default(), false, false, vec![]),
    ]
}

#[test]
fn cancel_checks_the_subscription_before_reading_the_plan() {
    let w = world(1, 0);
    let plan = account(w.plan_address, program_id(), false, false, w.plan.to_bytes());
    let accounts = cancel_accounts(&w, w.subscriber, plan.clone(), &w.subscription);
    assert!(cancel_subscription::period_in_range(&accounts));
    let cancelled = cancel_subscription::process(&accounts, NOW + 10).unwrap();
    assert_eq!(cancelled.expires_at_ts, NOW + HOUR);
    let broken_plan = account(w.plan_address, program_id(), false, false, vec![1, 2, 3]);
    let stranger = cancel_accounts(&w, addr(9), broken_plan.clone(), &w.subscription);
    assert!(cancel_subscription::period_in_range(&stranger));
    assert_eq!(cancel_subscription::process(&stranger, NOW).err(), Some(SubscriptionsError::Unauthorized));
    let owner = cancel_accounts(&w, w.subscriber, broken_plan, &w.subscription);
    assert_eq!(cancel_subscription::process(&owner, NOW).err(), Some(SubscriptionsError::InvalidAccountData));
    let closed = account(w.plan_address, Address::default(), false, false, vec![]);
    let immediate = cancel_subscription::process(&cancel_accounts(&w, w.subscriber, closed, &w.subscription), NOW + 5);
    assert_eq!(immediate.unwrap().expires_at_ts, NOW + 5);
}

#[test]
fn cancel_flags_a_period_of_zero_hours() {
    let w = world(1, 0);
    let mut sub = w.subscription;
    sub.terms.period_hours = 0;
    let mut plan = w.plan;
    plan.data.terms.period_hours = 0;
    let accounts = cancel_accounts(&w, w.subscriber, account(w.plan_address, program_id(), false, false, plan.to_bytes()), &sub);
    assert!(!cancel_subscription::period_in_range(&accounts));
}

#[test]
fn resume_over_accounts_reads_the_plan_after_the_subscription_checks() {
    let w = world(1, 0);
    let mut sub = w.subscription;
    let expires = cancel_subscription::cancel(&mut sub, &w.subscriber, &w.plan_address, Some(&w.plan), NOW + 10).unwrap();
    let accounts = |subscriber: Address, plan: AccountInfo| {
        vec![
            account(subscriber, Address::default(), true, false, vec![]),
            plan,
            account(w.subscription_address, program_id(), false, true, sub.to_bytes()),
            account(w.authority_address(), program_id(), false, false, w.authority.to_bytes()),
            account(addr(30), Address::default(), false, false, vec![]),
            account(program_id(), Address::default(), false, false, vec![]),
        ]
    };
    let data = ResumeData { expected_expires_at_ts: expires };
    let plan = account(w.plan_address, program_id(), false, false, w.plan.to_bytes());
    let resumed = resume_subscription::process(&accounts(w.subscriber, plan), &data, NOW + 20).unwrap();
    assert_eq!(resumed, w.subscription);
    let broken = account(w.plan_address, program_id(), false, false, vec![1, 2, 3]);
    assert_eq!(
        resume_subscription::process(&accounts(addr(9), broken.clone()), &data, NOW + 20).err(),
        Some(SubscriptionsError::Unauthorized)
    );
    assert_eq!(
        resume_subscription::process(&accounts(w.subscriber, broken), &data, NOW + 20).err(),
        Some(SubscriptionsError::InvalidAccountData)
    );
    let closed = account(w.plan_address, Address::default(), false, false, vec![]);
    assert_eq!(
        resume_subscription::process(&accounts(w.subscriber, closed), &data, NOW + 20).err(),
        Some(SubscriptionsError::PlanClosed)
    );
}

impl World {
    fn authority_address(&self) -> Address {
        subscriptions::pda::find_subscription_authority_pda(&self.subscriber, &self.mint).unwrap().0
    }
}
