use vstd::prelude::*;

use crate::accounts::{optional_payer_verdict, resolve_optional_payer, AccountInfo, SignerAccount, SystemAccount, WritableAccount};
use crate::address::{zero_address, Address};
use crate::errors::SubscriptionsError;
use crate::token_interface::{AssociatedTokenAccount, MintInterface, TokenAccountInterface, TokenProgramInterface};
use crate::pda::{find_subscription_authority_pda, program_id_bytes, spec_find_program_address, subscription_authority_seeds};
use crate::state::common::AccountDiscriminator;
use crate::state::subscription_authority::SubscriptionAuthority;
use crate::token_account::{check_token_account_mint, check_token_account_owner, mint_verdict, owner_verdict};

verus! {

/// A fresh SubscriptionAuthority for `user` and `mint`, funded by `payer`,
/// of generation `init_id`.
pub open spec fn new_authority(user: Address, mint: Address, payer: Address, bump: u8, init_id: i64) -> SubscriptionAuthority {
    SubscriptionAuthority {
        discriminator: AccountDiscriminator::SubscriptionAuthority.byte(),
        user,
        token_mint: mint,
        payer,
        bump,
        init_id,
    }
}

/// The verdict of initializing the SubscriptionAuthority of `user` for
/// `mint` at `authority_address`: the PDA bump, and the record to write
/// when the account is still empty (an existing one keeps its payer and
/// generation). The user's token account (data `ata_data`) must be theirs
/// and of the mint.
pub open spec fn initialize_verdict(
    user: Address,
    mint: Address,
    authority_address: Address,
    authority_data_len: nat,
    payer: Address,
    ata_data: Seq<u8>,
    init_id: i64,
) -> Result<(u8, Option<SubscriptionAuthority>), SubscriptionsError> {
    let pda = spec_find_program_address(subscription_authority_seeds(user@, mint@), program_id_bytes());
    if pda is None || pda.unwrap().0 != authority_address@ {
        Err(SubscriptionsError::InvalidSubscriptionAuthorityPda)
    } else if owner_verdict(ata_data, user@) is Err {
        Err(owner_verdict(ata_data, user@)->Err_0)
    } else if mint_verdict(ata_data, mint@) is Err {
        Err(mint_verdict(ata_data, mint@)->Err_0)
    } else {
        let bump = pda.unwrap().1;
        Ok(
            (
                bump,
                if authority_data_len == 0 {
                    Some(new_authority(user, mint, payer, bump, init_id))
                } else {
                    None
                },
            ),
        )
    }
}

/// Decides an `InitSubscriptionAuthority` (see [`initialize_verdict`]);
/// `init_id` is the generation a new authority gets (the current slot).
pub fn initialize(
    user: &Address,
    mint: &Address,
    authority_address: &Address,
    authority_data_len: usize,
    payer: &Address,
    ata_data: &[u8],
    init_id: i64,
) -> (r: Result<(u8, Option<SubscriptionAuthority>), SubscriptionsError>)
    ensures
        r == initialize_verdict(
            *user,
            *mint,
            *authority_address,
            authority_data_len as nat,
            *payer,
            ata_data@,
            init_id,
        ),
{
    let (expected, bump) = match find_subscription_authority_pda(user, mint) {
        Some(found) => found,
        None => {
            return Err(SubscriptionsError::InvalidSubscriptionAuthorityPda);
        },
    };
    if !expected.equals(authority_address) {
        return Err(SubscriptionsError::InvalidSubscriptionAuthorityPda);
    }
    check_token_account_owner(ata_data, user)?;
    check_token_account_mint(ata_data, mint)?;
    let record = if authority_data_len == 0 {
        Some(
            SubscriptionAuthority {
                discriminator: AccountDiscriminator::SubscriptionAuthority.as_u8(),
                user: *user,
                token_mint: *mint,
                payer: *payer,
                bump,
                init_id,
            },
        )
    } else {
        None
    };
    Ok((bump, record))
}

/// The accounts of an `InitSubscriptionAuthority` instruction, by index.
pub struct InitializeSubscriptionAuthorityAccounts {
    /// The user (signer, writable).
    pub user: usize,
    /// The SubscriptionAuthority PDA (writable).
    pub subscription_authority: usize,
    /// The token mint.
    pub token_mint: usize,
    /// The user's associated token account (writable).
    pub user_ata: usize,
    /// The System Program.
    pub system_program: usize,
    /// The token program (SPL Token or Token-2022).
    pub token_program: usize,
    /// Who funds the rent: a trailing sponsor, else the user.
    pub payer: usize,
}

impl InitializeSubscriptionAuthorityAccounts {
    /// The verdict of [`Self::try_from`].
    pub open spec fn verdict(accounts: Seq<AccountInfo>) -> Result<Self, SubscriptionsError> {
        if accounts.len() < 6 {
            Err(SubscriptionsError::NotEnoughAccountKeys)
        } else if !accounts[0].is_signer {
            Err(SubscriptionsError::NotSigner)
        } else if !accounts[0].is_writable {
            Err(SubscriptionsError::AccountNotWritable)
        } else if !accounts[1].is_writable {
            Err(SubscriptionsError::AccountNotWritable)
        } else if !accounts[3].is_writable {
            Err(SubscriptionsError::AccountNotWritable)
        } else if MintInterface::verdict(accounts[2], accounts[5]) is Err {
            Err(MintInterface::verdict(accounts[2], accounts[5])->Err_0)
        } else if TokenAccountInterface::verdict(accounts[3], accounts[5]) is Err {
            Err(TokenAccountInterface::verdict(accounts[3], accounts[5])->Err_0)
        } else if TokenProgramInterface::verdict(accounts[5]) is Err {
            Err(SubscriptionsError::IncorrectProgramId)
        } else if accounts[4].address@ != zero_address() {
            Err(SubscriptionsError::NotSystemProgram)
        } else {
            match optional_payer_verdict(accounts, 0, 6) {
                Err(e) => Err(e),
                Ok(p) => Ok(
                    InitializeSubscriptionAuthorityAccounts {
                        user: 0,
                        subscription_authority: 1,
                        token_mint: 2,
                        user_ata: 3,
                        system_program: 4,
                        token_program: 5,
                        payer: p as usize,
                    },
                ),
            }
        }
    }

    /// Picks and checks the accounts: user, SubscriptionAuthority, mint,
    /// the user's token account, System Program, token program, then an
    /// optional sponsor who pays the rent in the user's place.
    pub fn try_from(accounts: &[AccountInfo]) -> (r: Result<Self, SubscriptionsError>)
        ensures
            r == Self::verdict(accounts@),
            r matches Ok(a) ==> a.payer < accounts@.len() && (accounts@.len() > 6 ==> a.payer == 6) && (
            accounts@.len() == 6 ==> a.payer == 0),
    {
        if accounts.len() < 6 {
            return Err(SubscriptionsError::NotEnoughAccountKeys);
        }
        SignerAccount::check(&accounts[0])?;
        WritableAccount::check(&accounts[0])?;
        WritableAccount::check(&accounts[1])?;
        WritableAccount::check(&accounts[3])?;
        MintInterface::check_with_program(&accounts[2], &accounts[5])?;
        TokenAccountInterface::check_with_program(&accounts[3], &accounts[5])?;
        TokenProgramInterface::check(&accounts[5])?;
        SystemAccount::check(&accounts[4])?;
        let payer = resolve_optional_payer(accounts, 0, 6)?;
        Ok(
            InitializeSubscriptionAuthorityAccounts {
                user: 0,
                subscription_authority: 1,
                token_mint: 2,
                user_ata: 3,
                system_program: 4,
                token_program: 5,
                payer,
            },
        )
    }
}

/// A token `Approve` to perform: `authority` lets `delegate` move up to
/// `amount` out of `source`, through `token_program`.
#[derive(Clone, Copy, Debug)]
pub struct TokenApproval {
    /// The token account that grants the allowance.
    pub source: Address,
    /// Who may spend it.
    pub delegate: Address,
    /// The owner of `source`, who signs.
    pub authority: Address,
    /// The allowance.
    pub amount: u64,
    /// The token program that performs the approval.
    pub token_program: Address,
}

/// What an accepted `InitSubscriptionAuthority` leaves to perform.
pub struct InitializeOutcome {
    /// The SubscriptionAuthority bump, which signs its creation.
    pub bump: u8,
    /// Index of the account that funds the rent of a new authority.
    pub payer: usize,
    /// The record to write when the authority account is new.
    pub record: Option<SubscriptionAuthority>,
    /// The approval that makes the authority the delegate of the user's
    /// token account.
    pub approval: TokenApproval,
}

/// The verdict of an `InitSubscriptionAuthority` instruction over its
/// accounts, with `init_id` the generation a new authority gets: the
/// account checks, then [`initialize_verdict`] with the picked payer, then
/// that the user's token account is their associated one for the mint.
pub open spec fn initialize_accounts_verdict(accounts: Seq<AccountInfo>, init_id: i64) -> Result<
    (u8, Option<SubscriptionAuthority>),
    SubscriptionsError,
> {
    match InitializeSubscriptionAuthorityAccounts::verdict(accounts) {
        Err(e) => Err(e),
        Ok(a) => match initialize_verdict(
            accounts[0].address,
            accounts[2].address,
            accounts[1].address,
            accounts[1].data@.len(),
            accounts[a.payer as int].address,
            accounts[3].data@,
            init_id,
        ) {
            Err(e) => Err(e),
            Ok(r) => if AssociatedTokenAccount::verdict(accounts[3], accounts[0], accounts[2], accounts[5]) is Err {
                Err(SubscriptionsError::InvalidAssociatedTokenAccountDerivedAddress)
            } else {
                Ok(r)
            },
        },
    }
}

/// Decides an `InitSubscriptionAuthority` instruction (see
/// [`initialize_accounts_verdict`]). On success the user's token account
/// approves the SubscriptionAuthority as delegate for `u64::MAX`, signed by
/// the user, through the instruction's token program.
pub fn process(accounts: &[AccountInfo], init_id: i64) -> (r: Result<InitializeOutcome, SubscriptionsError>)
    ensures
        match r {
            Ok(o) => {
                &&& initialize_accounts_verdict(accounts@, init_id) == Ok::<
                    (u8, Option<SubscriptionAuthority>),
                    SubscriptionsError,
                >((o.bump, o.record))
                &&& InitializeSubscriptionAuthorityAccounts::verdict(accounts@) matches Ok(a) && o.payer == a.payer
                &&& o.approval == (TokenApproval {
                    source: accounts@[3].address,
                    delegate: accounts@[1].address,
                    authority: accounts@[0].address,
                    amount: u64::MAX,
                    token_program: accounts@[5].address,
                })
            },
            Err(e) => initialize_accounts_verdict(accounts@, init_id) == Err::<
                (u8, Option<SubscriptionAuthority>),
                SubscriptionsError,
            >(e),
        },
{
    let picked = InitializeSubscriptionAuthorityAccounts::try_from(accounts)?;
    let user = &accounts[0];
    let authority = &accounts[1];
    let mint = &accounts[2];
    let user_ata = &accounts[3];
    let token_program = &accounts[5];
    let (bump, record) = initialize(
        &user.address,
        &mint.address,
        &authority.address,
        authority.data.len(),
        &accounts[picked.payer].address,
        user_ata.data.as_slice(),
        init_id,
    )?;
    AssociatedTokenAccount::check(user_ata, user, mint, token_program)?;
    let approval = TokenApproval {
        source: user_ata.address,
        delegate: authority.address,
        authority: user.address,
        amount: u64::MAX,
        token_program: token_program.address,
    };
    Ok(InitializeOutcome { bump, payer: picked.payer, record, approval })
}

/// Re-running the initialization of an existing SubscriptionAuthority
/// writes nothing: the sponsor recorded at first creation stays the rent
/// recipient, and the generation does not change.
pub proof fn law_initialize_is_idempotent(
    user: Address,
    mint: Address,
    authority_address: Address,
    authority_data_len: nat,
    payer: Address,
    ata_data: Seq<u8>,
    init_id: i64,
)
    requires
        authority_data_len > 0,
        initialize_verdict(user, mint, authority_address, authority_data_len, payer, ata_data, init_id) is Ok,
    ensures
        initialize_verdict(user, mint, authority_address, authority_data_len, payer, ata_data, init_id)->Ok_0.1
            is None,
{
}

} // verus!
