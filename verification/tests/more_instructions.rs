use subscriptions::accounts::AccountInfo;
use subscriptions::address::Address;
use subscriptions::errors::SubscriptionsError;
use subscriptions::events::{decode_event, Event};
use subscriptions::instructions::create_plan;
use subscriptions::instructions::delete_plan;
use subscriptions::instructions::initialize_subscription_authority::initialize;
use subscriptions::instructions::introspection::{subscription_authority_inited_in_tx, TopLevelInstruction};
use subscriptions::instructions::revoke_abandoned_subscription;
use subscriptions::instructions::revoke_subscription_authority::check_revocable_delegate;
use subscriptions::instructions::transfer::TransferData;
use subscriptions::instructions::transfer_context::open;
use subscriptions::instructions::transfer_recurring_delegation;
use subscriptions::instructions::transfer_up_to;
use subscriptions::instructions::update_plan::{self, UpdatePlanData};
use subscriptions::pda::{
    find_associated_token_address, find_extra_account_metas_pda, find_subscription_authority_pda,
    find_transfer_context_pda, program_id, token_program_id,
};
use subscriptions::state::common::{AccountDiscriminator, PlanStatus};
use subscriptions::state::header::Header;
use subscriptions::state::plan::{Plan, PlanData, PlanTerms};
use subscriptions::state::recurring_delegation::RecurringDelegation;
use subscriptions::state::subscription_authority::SubscriptionAuthority;
use subscriptions::state::subscription_delegation::SubscriptionDelegation;
use subscriptions::state::up_to_delegation::UpToDelegation;
use subscriptions::transfer_hook::transfer_checked_with_hook;

const NOW: i64 = 1_700_000_000;

fn addr(b: u8) -> Address {
    Address::new_from_array([b; 32])
}

fn account(address: Address, owner: Address, is_signer: bool, is_writable: bool, data: Vec<u8>) -> AccountInfo {
    AccountInfo { address, owner, is_signer, is_writable, lamports: 1_000_000, data }
}

fn mint_account(mint: Address) -> AccountInfo {
    account(mint, token_program_id(), false, false, vec![0u8; 82])
}

fn token_program_account() -> AccountInfo {
    account(token_program_id(), Address::default(), false, false, vec![])
}

fn token_account(mint: &Address, owner: &Address) -> Vec<u8> {
    let mut data = vec![0u8; 165];
    data[..32].copy_from_slice(&mint.bytes);
    data[32..64].copy_from_slice(&owner.bytes);
    data
}

fn authority(user: Address, mint: Address) -> (Address, SubscriptionAuthority) {
    let sa = find_subscription_authority_pda(&user, &mint).unwrap().0;
    let (_, r) = initialize(&user, &mint, &sa, 0, &user, &token_account(&mint, &user), 5).unwrap();
    (sa, r.unwrap())
}

fn header(kind: AccountDiscriminator, delegator: Address, delegatee: Address) -> Header {
    Header::init(kind, 254, &delegator, &delegatee, &delegator, 5)
}

#[test]
fn recurring_transfer_rolls_period_and_counts_pull() {
    let (delegator, delegatee, mint) = (addr(1), addr(2), addr(3));
    let (sa, a) = authority(delegator, mint);
    let d = RecurringDelegation {
        header: header(AccountDiscriminator::RecurringDelegation, delegator, delegatee),
        subscription_authority: sa,
        mint,
        current_period_start_ts: NOW - 100,
        period_length_s: 60,
        expiry_ts: 0,
        amount_per_period: 50,
        amount_pulled_in_period: 50,
    };
    let ata = find_associated_token_address(&delegator, &token_program_id(), &mint).unwrap().0;
    let accounts = vec![
        account(addr(10), program_id(), false, true, d.to_bytes()),
        account(sa, program_id(), false, false, a.to_bytes()),
        account(ata, token_program_id(), false, true, token_account(&mint, &delegator)),
        account(addr(11), token_program_id(), false, true, token_account(&mint, &addr(9))),
        account(token_program_id(), Address::default(), false, false, vec![]),
        account(delegatee, Address::default(), true, false, vec![]),
        account(addr(12), Address::default(), false, false, vec![]),
        account(program_id(), Address::default(), false, false, vec![]),
    ];
    let t = TransferData { amount: 20, delegator, mint };
    let (after, bump, event) = transfer_recurring_delegation::process(&accounts, &t, NOW).unwrap();
    assert_eq!(after.current_period_start_ts, NOW - 40);
    assert_eq!(after.amount_pulled_in_period, 20);
    assert_eq!(bump, a.bump);
    assert_eq!(event.receiver, addr(9));
    assert_eq!(event.delegation, addr(10));
    assert_eq!(event.delegatee, delegatee);
    assert_eq!(event.amount, 20);
    assert_eq!(event.period_start_ts, NOW - 40);
    assert_eq!(event.period_end_ts, NOW + 20);
    assert_eq!(event.amount_pulled_in_period, 20);
    let bytes = event.to_bytes();
    assert_eq!(bytes.len(), 9 + 192);
    assert_eq!(bytes[8], 4);
    assert_eq!(decode_event(&bytes), Ok(Event::RecurringTransfer(event)));
    let over = TransferData { amount: 51, delegator, mint };
    assert_eq!(
        transfer_recurring_delegation::process(&accounts, &over, NOW).err(),
        Some(SubscriptionsError::AmountExceedsPeriodLimit)
    );
    let mut wrong_ata = accounts.clone();
    wrong_ata[2].address = addr(13);
    assert_eq!(
        transfer_recurring_delegation::process(&wrong_ata, &t, NOW).err(),
        Some(SubscriptionsError::InvalidAssociatedTokenAccountDerivedAddress)
    );
}

fn up_to_setup(max_amount: u64) -> (UpToDelegation, AccountInfo, AccountInfo, AccountInfo, AccountInfo) {
    let (delegator, delegatee, mint, recipient) = (addr(1), addr(2), addr(3), addr(4));
    let (sa, a) = authority(delegator, mint);
    let d = UpToDelegation {
        header: header(AccountDiscriminator::UpToDelegation, delegator, delegatee),
        subscription_authority: sa,
        mint,
        recipient,
        max_amount,
        expiry_ts: NOW + 100,
    };
    let ata = find_associated_token_address(&delegator, &token_program_id(), &mint).unwrap().0;
    (
        d,
        account(addr(10), program_id(), false, true, d.to_bytes()),
        account(sa, program_id(), false, false, a.to_bytes()),
        account(ata, token_program_id(), false, true, token_account(&mint, &delegator)),
        account(addr(11), token_program_id(), false, true, token_account(&mint, &recipient)),
    )
}

#[test]
fn up_to_draw_is_single_and_bound_to_recipient() {
    let (d, del, sa, from, to) = up_to_setup(100);
    let t = TransferData { amount: 60, delegator: addr(1), mint: addr(3) };
    let (after, bump, event) = transfer_up_to::process(&del, &sa, &from, &to, &token_program_account(), &mint_account(addr(3)), &addr(2), &t, &vec![], NOW).unwrap();
    assert_eq!(after.max_amount, 0);
    assert!(bump.is_some());
    assert_eq!(event.recipient, d.recipient);
    assert_eq!(event.amount, 60);
    let consumed = account(del.address, program_id(), false, true, after.to_bytes());
    assert_eq!(
        transfer_up_to::process(&consumed, &sa, &from, &to, &token_program_account(), &mint_account(addr(3)), &addr(2), &t, &vec![], NOW).err(),
        Some(SubscriptionsError::UpToDelegationConsumed)
    );
    let zero = TransferData { amount: 0, delegator: addr(1), mint: addr(3) };
    let (_, no_bump, _) = transfer_up_to::process(&del, &sa, &from, &to, &token_program_account(), &mint_account(addr(3)), &addr(2), &zero, &vec![], NOW).unwrap();
    assert!(no_bump.is_none());
    let elsewhere = account(addr(11), token_program_id(), false, true, token_account(&addr(3), &addr(8)));
    assert_eq!(
        transfer_up_to::process(&del, &sa, &from, &elsewhere, &token_program_account(), &mint_account(addr(3)), &addr(2), &t, &vec![], NOW).err(),
        Some(SubscriptionsError::UpToRecipientMismatch)
    );
}

#[test]
fn transfer_context_opens_only_when_passed() {
    let sa = addr(30);
    let initiator = account(addr(2), Address::default(), true, true, vec![]);
    let context = find_transfer_context_pda(&sa).unwrap().0;
    let none = vec![account(addr(31), Address::default(), false, false, vec![])];
    assert_eq!(open(&none, &sa, &initiator, &addr(10), AccountDiscriminator::FixedDelegation), Ok(None));
    let without_system = vec![account(context, Address::default(), false, true, vec![])];
    assert_eq!(
        open(&without_system, &sa, &initiator, &addr(10), AccountDiscriminator::FixedDelegation),
        Err(SubscriptionsError::NotSystemProgram)
    );
    let with_system = vec![
        account(Address::default(), Address::default(), false, false, vec![]),
        account(context, Address::default(), false, true, vec![]),
    ];
    let (i, _, record) =
        open(&with_system, &sa, &initiator, &addr(10), AccountDiscriminator::FixedDelegation).unwrap().unwrap();
    assert_eq!(i, 1);
    assert_eq!(record.initiator, addr(2));
    assert_eq!(record.delegation, addr(10));
    assert_eq!(record.delegation_kind, AccountDiscriminator::FixedDelegation.as_u8());
}

#[test]
fn hooked_transfer_needs_validation_account() {
    let mint = addr(3);
    let hook = addr(7);
    let validation = find_extra_account_metas_pda(&mint, &hook).unwrap().0;
    assert_eq!(
        transfer_checked_with_hook(&vec![addr(1)], &mint, &hook, 5, 6),
        Err(SubscriptionsError::TransferHookValidationAccountMissing)
    );
    let data = transfer_checked_with_hook(&vec![addr(1), validation], &mint, &hook, 5, 6).unwrap();
    assert_eq!(data, vec![12u8, 5, 0, 0, 0, 0, 0, 0, 0, 6]);
}

fn plan_for(merchant: Address, mint: Address, end_ts: i64) -> (Address, Plan) {
    let plan_address = subscriptions::pda::find_plan_pda(&merchant, 1).unwrap().0;
    let data = PlanData {
        plan_id: 1,
        mint,
        terms: PlanTerms { amount: 10, period_hours: 1, created_at: 0 },
        end_ts,
        destinations: [Address::default(); 4],
        pullers: [Address::default(); 4],
        metadata_uri: [0u8; 128],
    };
    let (plan, _) = create_plan::create(&merchant, &plan_address, 0, &mint, &data, NOW).unwrap();
    (plan_address, plan)
}

#[test]
fn create_plan_stamps_terms_and_checks_pda() {
    let (merchant, mint) = (addr(1), addr(3));
    let (plan_address, plan) = plan_for(merchant, mint, 0);
    assert_eq!(plan.data.terms.created_at, NOW);
    assert_eq!(plan.status, PlanStatus::Active.as_u8());
    assert_eq!(plan.owner, merchant);
    let mut data = plan.data;
    assert_eq!(
        create_plan::create(&merchant, &plan_address, Plan::LEN, &mint, &data, NOW).err(),
        Some(SubscriptionsError::PlanAlreadyExists)
    );
    assert_eq!(create_plan::create(&merchant, &addr(9), 0, &mint, &data, NOW).err(), Some(SubscriptionsError::InvalidPlanPda));
    assert_eq!(create_plan::create(&merchant, &plan_address, 0, &addr(4), &data, NOW).err(), Some(SubscriptionsError::MintMismatch));
    data.terms.period_hours = 8761;
    assert_eq!(create_plan::create(&merchant, &plan_address, 0, &mint, &data, NOW).err(), Some(SubscriptionsError::InvalidPeriodLength));
}

#[test]
fn plan_update_and_delete_follow_the_rules() {
    let (merchant, mint) = (addr(1), addr(3));
    let (plan_address, plan) = plan_for(merchant, mint, NOW + 10 * 3600);
    let accounts = vec![account(merchant, Address::default(), true, true, vec![]), account(plan_address, program_id(), false, true, plan.to_bytes())];
    let extend = UpdatePlanData { status: 0, end_ts: NOW + 20 * 3600, pullers: [Address::default(); 4], metadata_uri: [0u8; 128] };
    assert_eq!(update_plan::process(&accounts, &extend, NOW).err(), Some(SubscriptionsError::PlanEndTsCannotExtend));
    let sunset = UpdatePlanData { status: 1, end_ts: NOW + 5 * 3600, pullers: [addr(6); 4], metadata_uri: [1u8; 128] };
    let updated = update_plan::process(&accounts, &sunset, NOW).unwrap();
    assert_eq!(updated.status, 1);
    assert_eq!(updated.data.end_ts, NOW + 5 * 3600);
    assert_eq!(updated.data.terms, plan.data.terms);
    let after = vec![accounts[0].clone(), account(plan_address, program_id(), false, true, updated.to_bytes())];
    assert_eq!(update_plan::process(&after, &sunset, NOW).err(), Some(SubscriptionsError::PlanImmutableAfterSunset));
    assert_eq!(delete_plan::process(&after, NOW), Err(SubscriptionsError::PlanNotExpired));
    assert_eq!(delete_plan::process(&after, NOW + 5 * 3600 + 1), Ok(0));
    let mut stranger = after.clone();
    stranger[0].address = addr(2);
    assert_eq!(delete_plan::process(&stranger, NOW + 5 * 3600 + 1), Err(SubscriptionsError::NotPlanOwner));
}

#[test]
fn abandoned_subscription_needs_dead_authority_for_plan_mint() {
    let (merchant, subscriber, mint, sponsor) = (addr(1), addr(2), addr(3), addr(4));
    let (plan_address, plan) = plan_for(merchant, mint, 0);
    let (sa, a) = authority(subscriber, mint);
    let sub = SubscriptionDelegation {
        header: Header::init(AccountDiscriminator::SubscriptionDelegation, 250, &subscriber, &plan_address, &sponsor, a.init_id),
        terms: plan.data.terms,
        amount_pulled_in_period: 0,
        current_period_start_ts: NOW,
        expires_at_ts: 0,
    };
    let live = vec![
        account(sponsor, Address::default(), true, true, vec![]),
        account(addr(20), program_id(), false, true, sub.to_bytes()),
        account(sa, program_id(), false, false, a.to_bytes()),
        account(plan_address, program_id(), false, false, plan.to_bytes()),
    ];
    assert_eq!(revoke_abandoned_subscription::process(&live), Err(SubscriptionsError::Unauthorized));
    let mut dead = live.clone();
    dead[2] = account(sa, Address::default(), false, false, vec![]);
    assert_eq!(revoke_abandoned_subscription::process(&dead), Ok(()));
    let (other_sa, other) = authority(subscriber, addr(5));
    let mut spoofed = dead.clone();
    spoofed[2] = account(other_sa, program_id(), false, false, other.to_bytes());
    assert_eq!(revoke_abandoned_subscription::process(&spoofed), Err(SubscriptionsError::InvalidSubscriptionAuthorityPda));
    let mut closed_plan = dead.clone();
    closed_plan[3] = account(plan_address, Address::default(), false, false, vec![]);
    assert_eq!(revoke_abandoned_subscription::process(&closed_plan), Err(SubscriptionsError::PlanClosed));
}

#[test]
fn revoke_authority_delegate_only_for_own_pda() {
    let (user, mint) = (addr(1), addr(3));
    let sa = find_subscription_authority_pda(&user, &mint).unwrap().0;
    let mut data = token_account(&mint, &user);
    assert_eq!(check_revocable_delegate(&data, &user, &mint), Ok(false));
    data[72] = 1;
    data[76..108].copy_from_slice(&sa.bytes);
    assert_eq!(check_revocable_delegate(&data, &user, &mint), Ok(true));
    data[76..108].copy_from_slice(&addr(9).bytes);
    assert_eq!(check_revocable_delegate(&data, &user, &mint), Err(SubscriptionsError::Unauthorized));
    assert_eq!(check_revocable_delegate(&data, &addr(2), &mint), Err(SubscriptionsError::Unauthorized));
}

#[test]
fn initialize_keeps_existing_authority() {
    let (user, mint) = (addr(1), addr(3));
    let sa = find_subscription_authority_pda(&user, &mint).unwrap().0;
    let (bump, record) = initialize(&user, &mint, &sa, 0, &addr(4), &token_account(&mint, &user), 77).unwrap();
    let record = record.unwrap();
    assert_eq!(record.payer, addr(4));
    assert_eq!(record.bump, bump);
    assert_eq!(record.init_id, 77);
    let (_, again) = initialize(&user, &mint, &sa, SubscriptionAuthority::LEN, &addr(5), &token_account(&mint, &user), 78).unwrap();
    assert!(again.is_none());
    assert_eq!(
        initialize(&user, &mint, &addr(9), 0, &user, &token_account(&mint, &user), 1).err(),
        Some(SubscriptionsError::InvalidSubscriptionAuthorityPda)
    );
    assert_eq!(
        initialize(&user, &mint, &sa, 0, &user, &token_account(&mint, &addr(2)), 1).err(),
        Some(SubscriptionsError::Unauthorized)
    );
}

#[test]
fn earlier_init_instruction_is_found() {
    let (owner, pda) = (addr(1), addr(2));
    let other = TopLevelInstruction { program_id: addr(9), data: vec![0], accounts: vec![owner, pda] };
    let init = TopLevelInstruction { program_id: program_id(), data: vec![0], accounts: vec![owner, pda] };
    let broken = TopLevelInstruction { program_id: program_id(), data: vec![0], accounts: vec![owner] };
    let list = vec![other, init];
    assert_eq!(subscription_authority_inited_in_tx(&list, 2, &pda, &owner), Some(true));
    assert_eq!(subscription_authority_inited_in_tx(&list, 1, &pda, &owner), Some(false));
    assert_eq!(subscription_authority_inited_in_tx(&list, 2, &pda, &addr(3)), Some(false));
    let list2 = vec![broken];
    assert_eq!(subscription_authority_inited_in_tx(&list2, 1, &pda, &owner), None);
}

fn hooked_mint_data(hook_program: &Address) -> Vec<u8> {
    let mut data = vec![0u8; 166];
    data[44] = 6;
    data[165] = 1;
    data.extend_from_slice(&14u16.to_le_bytes());
    data.extend_from_slice(&64u16.to_le_bytes());
    data.extend_from_slice(&[7u8; 32]);
    data.extend_from_slice(&hook_program.bytes);
    data
}

#[test]
fn up_to_draw_on_a_hooked_mint_forwards_the_hook_accounts() {
    let (delegator, delegatee, mint, recipient) = (addr(1), addr(2), addr(3), addr(4));
    let t22 = subscriptions::pda::token_2022_program_id();
    let hook = addr(60);
    let (sa, a) = authority(delegator, mint);
    let d = UpToDelegation {
        header: header(AccountDiscriminator::UpToDelegation, delegator, delegatee),
        subscription_authority: sa,
        mint,
        recipient,
        max_amount: 100,
        expiry_ts: NOW + 100,
    };
    let ata = find_associated_token_address(&delegator, &t22, &mint).unwrap().0;
    let del = account(addr(10), program_id(), false, true, d.to_bytes());
    let sa_account = account(sa, program_id(), false, false, a.to_bytes());
    let from = account(ata, t22, false, true, token_account(&mint, &delegator));
    let to = account(addr(11), t22, false, true, token_account(&mint, &recipient));
    let tp = account(t22, Address::default(), false, false, vec![]);
    let mint_acc = account(mint, t22, false, false, hooked_mint_data(&hook));
    let validation = find_extra_account_metas_pda(&mint, &hook).unwrap().0;
    let remaining = vec![addr(61), validation];
    let t = TransferData { amount: 60, delegator, mint };
    let (_, movement, _) =
        transfer_up_to::process(&del, &sa_account, &from, &to, &tp, &mint_acc, &delegatee, &t, &remaining, NOW).unwrap();
    let (bump, route) = movement.unwrap();
    assert_eq!(bump, a.bump);
    let h = route.unwrap();
    assert_eq!(h.hook_program, hook);
    let mut expected = vec![12u8];
    expected.extend_from_slice(&60u64.to_le_bytes());
    expected.push(6);
    assert_eq!(h.data, expected);
    assert_eq!(h.forwarded, remaining);
    assert_eq!(
        transfer_up_to::process(&del, &sa_account, &from, &to, &tp, &mint_acc, &delegatee, &t, &vec![addr(61)], NOW).err(),
        Some(SubscriptionsError::TransferHookValidationAccountMissing)
    );
    let other_mint = account(addr(62), t22, false, false, hooked_mint_data(&hook));
    assert_eq!(
        transfer_up_to::process(&del, &sa_account, &from, &to, &tp, &other_mint, &delegatee, &t, &remaining, NOW).err(),
        Some(SubscriptionsError::MintMismatch)
    );
    let plain_mint = account(mint, t22, false, false, vec![0u8; 82]);
    let (_, plain, _) =
        transfer_up_to::process(&del, &sa_account, &from, &to, &tp, &plain_mint, &delegatee, &t, &vec![], NOW).unwrap();
    assert!(plain.unwrap().1.is_none());
}
