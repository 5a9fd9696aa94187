use subscriptions::accounts::AccountInfo;
use subscriptions::address::Address;
use subscriptions::errors::SubscriptionsError;
use subscriptions::instructions::create_plan;
use subscriptions::instructions::initialize_subscription_authority::{self, InitializeSubscriptionAuthorityAccounts};
use subscriptions::instructions::revoke_subscription_authority;
use subscriptions::pda::{
    find_associated_token_address, find_plan_pda, find_subscription_authority_pda, token_2022_program_id,
    token_program_id,
};
use subscriptions::state::plan::{PlanData, PlanTerms};
use subscriptions::token_interface::{AssociatedTokenAccount, MintInterface, TokenAccountInterface, TokenProgramInterface};

const NOW: i64 = 1_700_000_000;

fn addr(b: u8) -> Address {
    Address::new_from_array([b; 32])
}

fn account(address: Address, owner: Address, is_signer: bool, is_writable: bool, data: Vec<u8>) -> AccountInfo {
    AccountInfo { address, owner, is_signer, is_writable, lamports: 1_000_000, data }
}

fn program(address: Address) -> AccountInfo {
    account(address, Address::default(), false, false, vec![])
}

fn token_account(mint: &Address, owner: &Address, delegate: Option<&Address>) -> Vec<u8> {
    let mut data = vec![0u8; 165];
    data[..32].copy_from_slice(&mint.bytes);
    data[32..64].copy_from_slice(&owner.bytes);
    if let Some(d) = delegate {
        data[72] = 1;
        data[76..108].copy_from_slice(&d.bytes);
    }
    data
}

fn mint_account(mint: Address, token_program: Address) -> AccountInfo {
    account(mint, token_program, false, false, vec![0u8; 82])
}

struct InitSetup {
    user: Address,
    mint: Address,
    sa: Address,
    accounts: Vec<AccountInfo>,
}

fn init_setup() -> InitSetup {
    let (user, mint) = (addr(1), addr(3));
    let sa = find_subscription_authority_pda(&user, &mint).unwrap().0;
    let ata = find_associated_token_address(&user, &token_program_id(), &mint).unwrap().0;
    let accounts = vec![
        account(user, Address::default(), true, true, vec![]),
        account(sa, Address::default(), false, true, vec![]),
        mint_account(mint, token_program_id()),
        account(ata, token_program_id(), false, true, token_account(&mint, &user, None)),
        program(Address::default()),
        program(token_program_id()),
    ];
    InitSetup { user, mint, sa, accounts }
}

#[test]
fn token_program_must_be_spl_token_or_token_2022() {
    assert_eq!(TokenProgramInterface::check(&program(token_program_id())), Ok(()));
    assert_eq!(TokenProgramInterface::check(&program(token_2022_program_id())), Ok(()));
    assert_eq!(TokenProgramInterface::check(&program(addr(77))), Err(SubscriptionsError::IncorrectProgramId));
}

#[test]
fn mint_and_token_account_layouts() {
    let spl = program(token_program_id());
    let t22 = program(token_2022_program_id());
    assert_eq!(MintInterface::check_with_program(&mint_account(addr(3), token_program_id()), &spl), Ok(()));
    assert_eq!(
        MintInterface::check_with_program(&mint_account(addr(3), token_program_id()), &t22),
        Err(SubscriptionsError::InvalidAccountOwner)
    );
    let mut ext = vec![0u8; 200];
    ext[165] = 1;
    assert_eq!(MintInterface::check_with_program(&account(addr(3), token_2022_program_id(), false, false, ext.clone()), &t22), Ok(()));
    assert_eq!(
        MintInterface::check_with_program(&account(addr(3), token_program_id(), false, false, ext.clone()), &spl),
        Err(SubscriptionsError::InvalidAccountData)
    );
    assert_eq!(
        TokenAccountInterface::check_with_program(&account(addr(4), token_2022_program_id(), false, false, ext.clone()), &t22),
        Err(SubscriptionsError::InvalidAccountData)
    );
    ext[165] = 2;
    assert_eq!(TokenAccountInterface::check_with_program(&account(addr(4), token_2022_program_id(), false, false, ext), &t22), Ok(()));
    assert_eq!(
        TokenAccountInterface::check_with_program(&account(addr(4), token_program_id(), false, false, vec![0u8; 100]), &spl),
        Err(SubscriptionsError::InvalidAccountData)
    );
}

#[test]
fn associated_token_account_is_derived_from_wallet_program_and_mint() {
    let s = init_setup();
    assert_eq!(AssociatedTokenAccount::check(&s.accounts[3], &s.accounts[0], &s.accounts[2], &s.accounts[5]), Ok(()));
    assert_eq!(
        AssociatedTokenAccount::check(&s.accounts[3], &s.accounts[0], &s.accounts[2], &program(token_2022_program_id())),
        Err(SubscriptionsError::InvalidAssociatedTokenAccountDerivedAddress)
    );
}

#[test]
fn initialize_approves_authority_for_max_and_user_pays() {
    let s = init_setup();
    let out = initialize_subscription_authority::process(&s.accounts, 42).unwrap();
    assert_eq!(out.payer, 0);
    let record = out.record.unwrap();
    assert_eq!(record.payer, s.user);
    assert_eq!(record.user, s.user);
    assert_eq!(record.token_mint, s.mint);
    assert_eq!(record.init_id, 42);
    assert_eq!(out.approval.source, s.accounts[3].address);
    assert_eq!(out.approval.delegate, s.sa);
    assert_eq!(out.approval.authority, s.user);
    assert_eq!(out.approval.amount, u64::MAX);
    assert_eq!(out.approval.token_program, token_program_id());
}

#[test]
fn initialize_trailing_sponsor_pays() {
    let mut s = init_setup();
    let sponsor = addr(40);
    s.accounts.push(account(sponsor, Address::default(), true, true, vec![]));
    let picked = InitializeSubscriptionAuthorityAccounts::try_from(&s.accounts).unwrap();
    assert_eq!(picked.payer, 6);
    let out = initialize_subscription_authority::process(&s.accounts, 42).unwrap();
    assert_eq!(out.record.unwrap().payer, sponsor);
    s.accounts[6].is_signer = false;
    assert_eq!(initialize_subscription_authority::process(&s.accounts, 42).err(), Some(SubscriptionsError::NotSigner));
}

#[test]
fn initialize_existing_authority_writes_nothing_but_still_approves() {
    let mut s = init_setup();
    s.accounts[1].data = vec![0u8; 10];
    let out = initialize_subscription_authority::process(&s.accounts, 42).unwrap();
    assert!(out.record.is_none());
    assert_eq!(out.approval.amount, u64::MAX);
}

#[test]
fn initialize_refuses_bad_accounts() {
    let s = init_setup();
    assert_eq!(
        initialize_subscription_authority::process(&s.accounts[..5], 42).err(),
        Some(SubscriptionsError::NotEnoughAccountKeys)
    );
    let mut wrong_program = s.accounts.clone();
    wrong_program[5] = program(addr(77));
    wrong_program[2].owner = addr(77);
    wrong_program[3].owner = addr(77);
    assert_eq!(
        initialize_subscription_authority::process(&wrong_program, 42).err(),
        Some(SubscriptionsError::IncorrectProgramId)
    );
    let mut foreign_mint = s.accounts.clone();
    foreign_mint[2].owner = addr(78);
    assert_eq!(
        initialize_subscription_authority::process(&foreign_mint, 42).err(),
        Some(SubscriptionsError::InvalidAccountOwner)
    );
    let mut not_ata = s.accounts.clone();
    not_ata[3].address = addr(55);
    assert_eq!(
        initialize_subscription_authority::process(&not_ata, 42).err(),
        Some(SubscriptionsError::InvalidAssociatedTokenAccountDerivedAddress)
    );
    let mut no_system = s.accounts.clone();
    no_system[4] = program(addr(9));
    assert_eq!(
        initialize_subscription_authority::process(&no_system, 42).err(),
        Some(SubscriptionsError::NotSystemProgram)
    );
    let mut wrong_pda = s.accounts.clone();
    wrong_pda[1].address = addr(56);
    assert_eq!(
        initialize_subscription_authority::process(&wrong_pda, 42).err(),
        Some(SubscriptionsError::InvalidSubscriptionAuthorityPda)
    );
}

fn revoke_setup(delegate: Option<&Address>) -> (Vec<AccountInfo>, Address) {
    let (user, mint) = (addr(1), addr(3));
    let sa = find_subscription_authority_pda(&user, &mint).unwrap().0;
    let ata = find_associated_token_address(&user, &token_program_id(), &mint).unwrap().0;
    let d = delegate.copied().map(|x| if x == Address::default() { sa } else { x });
    (
        vec![
            account(user, Address::default(), true, false, vec![]),
            account(ata, token_program_id(), false, true, token_account(&mint, &user, d.as_ref())),
            mint_account(mint, token_program_id()),
            program(token_program_id()),
        ],
        sa,
    )
}

#[test]
fn revoke_authority_clears_only_the_authority_approval() {
    let (accounts, _) = revoke_setup(Some(&Address::default()));
    assert_eq!(revoke_subscription_authority::process(&accounts), Ok(true));
    let (none, _) = revoke_setup(None);
    assert_eq!(revoke_subscription_authority::process(&none), Ok(false));
    let (other, _) = revoke_setup(Some(&addr(99)));
    assert_eq!(revoke_subscription_authority::process(&other), Err(SubscriptionsError::Unauthorized));
    let mut not_ata = accounts.clone();
    not_ata[1].address = addr(57);
    assert_eq!(
        revoke_subscription_authority::process(&not_ata),
        Err(SubscriptionsError::InvalidAssociatedTokenAccountDerivedAddress)
    );
    let mut wrong_program = accounts.clone();
    wrong_program[3] = program(addr(77));
    assert_eq!(revoke_subscription_authority::process(&wrong_program), Err(SubscriptionsError::IncorrectProgramId));
    let mut unsigned = accounts.clone();
    unsigned[0].is_signer = false;
    assert_eq!(revoke_subscription_authority::process(&unsigned), Err(SubscriptionsError::NotSigner));
    assert_eq!(revoke_subscription_authority::process(&accounts[..3]), Err(SubscriptionsError::NotEnoughAccountKeys));
}

fn plan_data(mint: Address) -> PlanData {
    PlanData {
        plan_id: 7,
        mint,
        terms: PlanTerms { amount: 100, period_hours: 24, created_at: 0 },
        end_ts: 0,
        destinations: [Address::default(); 4],
        pullers: [Address::default(); 4],
        metadata_uri: [0u8; 128],
    }
}

#[test]
fn create_plan_checks_mint_program_and_payer() {
    let (merchant, mint) = (addr(20), addr(3));
    let plan = find_plan_pda(&merchant, 7).unwrap().0;
    let mut accounts = vec![
        account(merchant, Address::default(), true, true, vec![]),
        account(plan, Address::default(), false, true, vec![]),
        mint_account(mint, token_program_id()),
        program(Address::default()),
        program(token_program_id()),
    ];
    let (p, bump, payer) = create_plan::process(&accounts, &plan_data(mint), NOW).unwrap();
    assert_eq!(payer, 0);
    assert_eq!(p.owner, merchant);
    assert_eq!(p.bump, bump);
    assert_eq!(p.data.terms.created_at, NOW);
    let mut foreign = accounts.clone();
    foreign[2].owner = addr(78);
    assert_eq!(create_plan::process(&foreign, &plan_data(mint), NOW).err(), Some(SubscriptionsError::InvalidAccountOwner));
    let mut bad_program = accounts.clone();
    bad_program[4] = program(addr(77));
    bad_program[2].owner = addr(77);
    assert_eq!(create_plan::process(&bad_program, &plan_data(mint), NOW).err(), Some(SubscriptionsError::IncorrectProgramId));
    assert_eq!(create_plan::process(&accounts, &plan_data(addr(4)), NOW).err(), Some(SubscriptionsError::MintMismatch));
    let mut bad_data = plan_data(mint);
    bad_data.terms.amount = 0;
    assert_eq!(create_plan::process(&accounts[..2], &bad_data, NOW).err(), Some(SubscriptionsError::InvalidAmount));
    accounts.push(account(addr(41), Address::default(), true, true, vec![]));
    assert_eq!(create_plan::process(&accounts, &plan_data(mint), NOW).unwrap().2, 5);
}
