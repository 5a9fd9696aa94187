use subscriptions::accounts::AccountInfo;
use subscriptions::address::Address;
use subscriptions::errors::SubscriptionsError;
use subscriptions::instructions::close_subscription_authority;
use subscriptions::instructions::create_fixed_delegation::{self, CreateFixedDelegationData};
use subscriptions::instructions::initialize_subscription_authority::initialize;
use subscriptions::instructions::reclaim_excess_rent;
use subscriptions::instructions::revoke_abandoned_delegation;
use subscriptions::instructions::revoke_delegation;
use subscriptions::instructions::transfer::TransferData;
use subscriptions::instructions::transfer_fixed_delegation;
use subscriptions::pda::{
    find_associated_token_address, find_delegation_pda, find_subscription_authority_pda, program_id,
    token_program_id,
};
use subscriptions::state::fixed_delegation::FixedDelegation;
use subscriptions::state::subscription_authority::SubscriptionAuthority;

const NOW: i64 = 1_700_000_000;

fn addr(b: u8) -> Address {
    Address::new_from_array([b; 32])
}

fn token_account(mint: &Address, owner: &Address) -> Vec<u8> {
    let mut data = vec![0u8; 165];
    data[..32].copy_from_slice(&mint.bytes);
    data[32..64].copy_from_slice(&owner.bytes);
    data
}

fn account(address: Address, owner: Address, is_signer: bool, is_writable: bool, data: Vec<u8>) -> AccountInfo {
    AccountInfo { address, owner, is_signer, is_writable, lamports: 1_000_000, data }
}

struct Setup {
    delegator: Address,
    delegatee: Address,
    mint: Address,
    sa_address: Address,
    authority: SubscriptionAuthority,
    delegation_address: Address,
    delegation: FixedDelegation,
}

fn setup(payer: Address, expiry_ts: i64) -> Setup {
    let delegator = addr(1);
    let delegatee = addr(2);
    let mint = addr(3);
    let sa_address = find_subscription_authority_pda(&delegator, &mint).unwrap().0;
    let (_, record) = initialize(&delegator, &mint, &sa_address, 0, &delegator, &token_account(&mint, &delegator), 11)
        .unwrap();
    let authority = record.unwrap();
    let delegation_address = find_delegation_pda(&sa_address, &delegator, &delegatee, 0).unwrap().0;
    let mut accounts = vec![
        account(delegator, Address::default(), true, true, vec![]),
        account(sa_address, program_id(), false, false, authority.to_bytes()),
        account(delegation_address, Address::default(), false, true, vec![]),
        account(delegatee, Address::default(), false, false, vec![]),
        account(Address::default(), Address::default(), false, false, vec![]),
    ];
    if payer != delegator {
        accounts.push(account(payer, Address::default(), true, true, vec![]));
    }
    let data = CreateFixedDelegationData { nonce: 0, amount: 100, expiry_ts };
    let (delegation, payer_index) = create_fixed_delegation::process(&accounts, &data, NOW).unwrap();
    assert_eq!(accounts[payer_index].address, payer);
    Setup { delegator, delegatee, mint, sa_address, authority, delegation_address, delegation }
}

#[test]
fn create_fixed_delegation_records_the_grant() {
    let s = setup(addr(1), NOW + 1000);
    assert_eq!(s.delegation.amount, 100);
    assert_eq!(s.delegation.expiry_ts, NOW + 1000);
    assert_eq!(s.delegation.header.delegator, s.delegator);
    assert_eq!(s.delegation.header.delegatee, s.delegatee);
    assert_eq!(s.delegation.header.payer, s.delegator);
    assert_eq!(s.delegation.header.init_id, 11);
    assert_eq!(s.delegation.subscription_authority, s.sa_address);
    assert_eq!(s.delegation.mint, s.mint);
}

#[test]
fn create_fixed_delegation_refuses_bad_payload_and_existing_account() {
    let s = setup(addr(1), NOW + 1000);
    let accounts = vec![
        account(s.delegator, Address::default(), true, true, vec![]),
        account(s.sa_address, program_id(), false, false, s.authority.to_bytes()),
        account(s.delegation_address, program_id(), false, true, s.delegation.to_bytes()),
        account(s.delegatee, Address::default(), false, false, vec![]),
        account(Address::default(), Address::default(), false, false, vec![]),
    ];
    let data = CreateFixedDelegationData { nonce: 0, amount: 100, expiry_ts: 0 };
    assert_eq!(create_fixed_delegation::process(&accounts, &data, NOW).unwrap_err(), SubscriptionsError::DelegationAlreadyExists);
    let zero = CreateFixedDelegationData { nonce: 0, amount: 0, expiry_ts: 0 };
    assert_eq!(create_fixed_delegation::process(&accounts, &zero, NOW).unwrap_err(), SubscriptionsError::FixedDelegationAmountZero);
}

fn transfer_accounts(s: &Setup, receiver_owner: Address) -> Vec<AccountInfo> {
    let token_program = token_program_id();
    let delegator_ata = find_associated_token_address(&s.delegator, &token_program, &s.mint).unwrap().0;
    vec![
        account(s.delegation_address, program_id(), false, true, s.delegation.to_bytes()),
        account(s.sa_address, program_id(), false, false, s.authority.to_bytes()),
        account(delegator_ata, token_program, false, true, token_account(&s.mint, &s.delegator)),
        account(addr(8), token_program, false, true, token_account(&s.mint, &receiver_owner)),
        account(token_program, Address::default(), false, false, vec![]),
        account(s.delegatee, Address::default(), true, false, vec![]),
        account(addr(20), Address::default(), false, false, vec![]),
        account(program_id(), Address::default(), false, false, vec![]),
    ]
}

#[test]
fn fixed_transfer_decrements_allowance_and_reports_it() {
    let s = setup(addr(1), NOW + 1000);
    let transfer = TransferData { amount: 30, delegator: s.delegator, mint: s.mint };
    let out = transfer_fixed_delegation::process(&transfer_accounts(&s, addr(9)), &transfer, NOW).unwrap();
    assert_eq!(out.delegation.amount, 70);
    assert_eq!(out.bump, s.authority.bump);
    assert_eq!(out.event.remaining_amount, 70);
    assert_eq!(out.event.receiver, addr(9));
    assert_eq!(out.event.receiver_token_account, addr(8));
}

#[test]
fn fixed_transfer_refuses_over_allowance_expiry_and_wrong_delegatee() {
    let s = setup(addr(1), NOW + 1000);
    let too_much = TransferData { amount: 101, delegator: s.delegator, mint: s.mint };
    assert_eq!(
        transfer_fixed_delegation::process(&transfer_accounts(&s, addr(9)), &too_much, NOW).err(),
        Some(SubscriptionsError::AmountExceedsLimit)
    );
    let ok = TransferData { amount: 1, delegator: s.delegator, mint: s.mint };
    assert_eq!(
        transfer_fixed_delegation::process(&transfer_accounts(&s, addr(9)), &ok, NOW + 1001).err(),
        Some(SubscriptionsError::DelegationExpired)
    );
    let mut accounts = transfer_accounts(&s, addr(9));
    accounts[5].address = addr(77);
    assert_eq!(transfer_fixed_delegation::process(&accounts, &ok, NOW).err(), Some(SubscriptionsError::Unauthorized));
    let wrong_mint = TransferData { amount: 1, delegator: s.delegator, mint: addr(4) };
    assert_eq!(
        transfer_fixed_delegation::process(&transfer_accounts(&s, addr(9)), &wrong_mint, NOW).err(),
        Some(SubscriptionsError::MintMismatch)
    );
}

fn revoke_accounts(s: &Setup, authority: Address, receiver: Option<Address>) -> Vec<AccountInfo> {
    let mut v = vec![
        account(authority, Address::default(), true, true, vec![]),
        account(s.delegation_address, program_id(), false, true, s.delegation.to_bytes()),
    ];
    if let Some(r) = receiver {
        v.push(account(r, Address::default(), false, true, vec![]));
    }
    v
}

#[test]
fn delegator_revokes_fixed_delegation_any_time() {
    let s = setup(addr(1), NOW + 1000);
    assert_eq!(revoke_delegation::process(&revoke_accounts(&s, s.delegator, None), NOW), Ok(0));
}

#[test]
fn stranger_cannot_revoke_fixed_delegation() {
    let s = setup(addr(1), NOW + 1000);
    assert_eq!(revoke_delegation::process(&revoke_accounts(&s, addr(50), None), NOW), Err(SubscriptionsError::Unauthorized));
}

#[test]
fn sponsor_can_revoke_only_after_expiry() {
    let sponsor = addr(40);
    let s = setup(sponsor, NOW + 1000);
    assert_eq!(s.delegation.header.payer, sponsor);
    assert_eq!(revoke_delegation::process(&revoke_accounts(&s, sponsor, None), NOW), Err(SubscriptionsError::Unauthorized));
    assert_eq!(revoke_delegation::process(&revoke_accounts(&s, sponsor, None), NOW + 1000), Err(SubscriptionsError::Unauthorized));
    assert_eq!(revoke_delegation::process(&revoke_accounts(&s, sponsor, None), NOW + 1001), Ok(0));
}

#[test]
fn delegator_revoke_of_sponsored_delegation_routes_rent_to_sponsor() {
    let sponsor = addr(40);
    let s = setup(sponsor, 0);
    assert_eq!(
        revoke_delegation::process(&revoke_accounts(&s, s.delegator, None), NOW),
        Err(SubscriptionsError::NotEnoughAccountKeys)
    );
    assert_eq!(
        revoke_delegation::process(&revoke_accounts(&s, s.delegator, Some(addr(41))), NOW),
        Err(SubscriptionsError::Unauthorized)
    );
    assert_eq!(revoke_delegation::process(&revoke_accounts(&s, s.delegator, Some(sponsor)), NOW), Ok(2));
}

#[test]
fn abandoned_delegation_closes_only_once_authority_is_dead() {
    let sponsor = addr(40);
    let s = setup(sponsor, 0);
    let live = vec![
        account(sponsor, Address::default(), true, true, vec![]),
        account(s.delegation_address, program_id(), false, true, s.delegation.to_bytes()),
        account(s.sa_address, program_id(), false, false, s.authority.to_bytes()),
    ];
    assert_eq!(revoke_abandoned_delegation::process(&live), Err(SubscriptionsError::Unauthorized));
    let mut closed = live.clone();
    closed[2] = account(s.sa_address, Address::default(), false, false, vec![]);
    assert_eq!(revoke_abandoned_delegation::process(&closed), Ok(()));
    let mut rotated = live.clone();
    let mut renewed = s.authority;
    renewed.init_id = 12;
    rotated[2] = account(s.sa_address, program_id(), false, false, renewed.to_bytes());
    assert_eq!(revoke_abandoned_delegation::process(&rotated), Ok(()));
    let mut stranger = closed.clone();
    stranger[0].address = addr(41);
    assert_eq!(revoke_abandoned_delegation::process(&stranger), Err(SubscriptionsError::Unauthorized));
}

#[test]
fn reclaim_excess_rent_goes_to_recorded_payer() {
    let sponsor = addr(40);
    let s = setup(sponsor, 0);
    let target = account(s.delegation_address, program_id(), false, true, s.delegation.to_bytes());
    let to_sponsor = vec![target.clone(), account(sponsor, Address::default(), false, true, vec![])];
    assert_eq!(reclaim_excess_rent::process(&to_sponsor, 600_000), Ok(400_000));
    let to_delegator = vec![target.clone(), account(s.delegator, Address::default(), false, true, vec![])];
    assert_eq!(reclaim_excess_rent::process(&to_delegator, 600_000), Err(SubscriptionsError::Unauthorized));
    let authority = account(s.sa_address, program_id(), false, true, s.authority.to_bytes());
    let to_user = vec![authority, account(s.delegator, Address::default(), false, true, vec![])];
    assert_eq!(reclaim_excess_rent::process(&to_user, 2_000_000), Ok(0));
    assert_eq!(reclaim_excess_rent::process(&to_user, 1_000_000), Ok(0));
    assert_eq!(reclaim_excess_rent::process(&to_user, 999_999), Ok(1));
}

#[test]
fn close_authority_returns_rent_to_payer() {
    let s = setup(addr(1), 0);
    let own = vec![
        account(s.delegator, Address::default(), true, true, vec![]),
        account(s.sa_address, program_id(), false, true, s.authority.to_bytes()),
    ];
    assert_eq!(close_subscription_authority::process(&own), Ok(0));
    let mut sponsored = s.authority;
    sponsored.payer = addr(40);
    let mut accounts = vec![
        account(s.delegator, Address::default(), true, true, vec![]),
        account(s.sa_address, program_id(), false, true, sponsored.to_bytes()),
    ];
    assert_eq!(close_subscription_authority::process(&accounts), Err(SubscriptionsError::NotEnoughAccountKeys));
    accounts.push(account(addr(41), Address::default(), false, true, vec![]));
    assert_eq!(close_subscription_authority::process(&accounts), Err(SubscriptionsError::Unauthorized));
    accounts[2].address = addr(40);
    assert_eq!(close_subscription_authority::process(&accounts), Ok(2));
    let mut by_sponsor = accounts.clone();
    by_sponsor[0].address = addr(40);
    assert_eq!(close_subscription_authority::process(&by_sponsor), Err(SubscriptionsError::Unauthorized));
}

#[test]
fn fixed_transfer_needs_a_token_program_that_owns_both_token_accounts() {
    let s = setup(addr(1), NOW + 1000);
    let transfer = TransferData { amount: 10, delegator: s.delegator, mint: s.mint };
    let mut bogus_program = transfer_accounts(&s, addr(9));
    bogus_program[4].address = addr(77);
    assert_eq!(
        transfer_fixed_delegation::process(&bogus_program, &transfer, NOW).err(),
        Some(SubscriptionsError::IncorrectProgramId)
    );
    let mut foreign_receiver = transfer_accounts(&s, addr(9));
    foreign_receiver[3].owner = addr(78);
    assert_eq!(
        transfer_fixed_delegation::process(&foreign_receiver, &transfer, NOW).err(),
        Some(SubscriptionsError::InvalidAccountOwner)
    );
    let mut short_source = transfer_accounts(&s, addr(9));
    short_source[2].data.truncate(100);
    assert_eq!(
        transfer_fixed_delegation::process(&short_source, &transfer, NOW).err(),
        Some(SubscriptionsError::InvalidAccountData)
    );
}

#[test]
fn fixed_allowance_of_a_million_leaves_nine_hundred_thousand_after_a_tenth() {
    let delegator = addr(1);
    let delegatee = addr(2);
    let mint = addr(3);
    let sa_address = find_subscription_authority_pda(&delegator, &mint).unwrap().0;
    let (_, record) = initialize(&delegator, &mint, &sa_address, 0, &delegator, &token_account(&mint, &delegator), 11)
        .unwrap();
    let authority = record.unwrap();
    let delegation_address = find_delegation_pda(&sa_address, &delegator, &delegatee, 0).unwrap().0;
    let accounts = vec![
        account(delegator, Address::default(), true, true, vec![]),
        account(sa_address, program_id(), false, false, authority.to_bytes()),
        account(delegation_address, Address::default(), false, true, vec![]),
        account(delegatee, Address::default(), false, false, vec![]),
        account(Address::default(), Address::default(), false, false, vec![]),
    ];
    let data = CreateFixedDelegationData { nonce: 0, amount: 1_000_000, expiry_ts: NOW + 3600 };
    let (delegation, _) = create_fixed_delegation::process(&accounts, &data, NOW).unwrap();
    let s = Setup { delegator, delegatee, mint, sa_address, authority, delegation_address, delegation };
    let transfer = TransferData { amount: 100_000, delegator, mint };
    let out = transfer_fixed_delegation::process(&transfer_accounts(&s, addr(9)), &transfer, NOW).unwrap();
    assert_eq!(out.delegation.amount, 900_000);
    assert_eq!(out.event.remaining_amount, 900_000);
    assert_eq!(out.event.amount, 100_000);
}
