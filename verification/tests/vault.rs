//! The vault operations end to end on concrete accounts, with the real
//! address derivations.

use solana_program::pubkey::Pubkey;
use token_wrapper::addr::{address_eq, Address};
use token_wrapper::error::{TokenWrapperError, UpstreamError, VaultError};
use token_wrapper::instruction::TokenWrapperInstruction;
use token_wrapper::pda::{
    get_associated_token_address, get_reserve_authority, get_reserve_authority_token_account,
    get_token_freeze_authority, get_token_mint_authority, get_wrapper_token_mint,
};
use token_wrapper::processor::{
    process_deposit_and_mint_wrapper_tokens, process_initialize_wrapper_token,
    process_instruction, process_withdraw_and_burn_wrapper_tokens, DepositAccounts,
    InitializeAccounts, WithdrawAccounts,
};
use token_wrapper::state::{Account, AccountContents, MintState, TokenAccountState, TransferFee};
use token_wrapper::validate::{
    assert_associated_token_program, assert_rent, assert_system_program,
    assert_token_2022_program, assert_token_program,
};

fn mk_addr(n: u8) -> Address {
    Address { bytes: [n; 32] }
}

fn spl_token_addr() -> Address {
    Address { bytes: spl_token::ID.to_bytes() }
}

fn t22_addr() -> Address {
    Address { bytes: spl_token_2022::ID.to_bytes() }
}

fn ata_program_addr() -> Address {
    Address { bytes: spl_associated_token_account::ID.to_bytes() }
}

fn system_addr() -> Address {
    Address { bytes: solana_program::system_program::ID.to_bytes() }
}

fn rent_addr() -> Address {
    Address { bytes: solana_program::sysvar::rent::ID.to_bytes() }
}

fn program_account(key: Address) -> Account {
    Account { key, owner: system_addr(), is_signer: false, contents: AccountContents::Empty }
}

fn underlying_mint(key: Address, decimals: u8, supply: u64, fee: Option<TransferFee>) -> Account {
    Account {
        key,
        owner: t22_addr(),
        is_signer: false,
        contents: AccountContents::Mint(MintState {
            mint_authority: None,
            freeze_authority: None,
            decimals,
            supply,
            is_initialized: true,
            transfer_fee: fee,
        }),
    }
}

fn holding(key: Address, program: Address, mint: Address, owner: Address, amount: u64) -> Account {
    Account {
        key,
        owner: program,
        is_signer: false,
        contents: AccountContents::Token(TokenAccountState {
            mint,
            owner,
            amount,
            is_frozen: false,
        }),
    }
}

fn token_amount(account: &Account) -> u64 {
    match account.contents {
        AccountContents::Token(t) => t.amount,
        _ => panic!("not a token holding"),
    }
}

fn mint_supply(account: &Account) -> u64 {
    match account.contents {
        AccountContents::Mint(m) => m.supply,
        _ => panic!("not a mint"),
    }
}

fn fresh_initialize(program_id: Address, mint_account: Account) -> InitializeAccounts {
    let (wrapper_key, _, _) = get_wrapper_token_mint(mint_account.key, program_id);
    let (reserve_auth_key, _, _) = get_reserve_authority(mint_account.key, program_id);
    let (reserve_key, _, _) =
        get_reserve_authority_token_account(mint_account.key, reserve_auth_key, program_id);
    InitializeAccounts {
        payer: Account {
            key: mk_addr(1),
            owner: system_addr(),
            is_signer: true,
            contents: AccountContents::Empty,
        },
        token_2022_mint: mint_account,
        wrapper_token_mint: program_account(wrapper_key),
        reserve_authority: program_account(reserve_auth_key),
        reserve_token_account: program_account(reserve_key),
        token_program: program_account(spl_token_addr()),
        token_2022_program: program_account(t22_addr()),
        system_program: program_account(system_addr()),
        rent_sysvar: program_account(rent_addr()),
    }
}

fn deposit_after(init: &InitializeAccounts, user: Account, user_t22: Account, user_wrapper: Account) -> DepositAccounts {
    DepositAccounts {
        user_authority: user,
        reserve_authority: init.reserve_authority,
        token_2022_mint: init.token_2022_mint,
        wrapper_token_mint: init.wrapper_token_mint,
        user_wrapper_token_account: user_wrapper,
        user_token_2022_token_account: user_t22,
        reserve_token_account: init.reserve_token_account,
        token_program: init.token_program,
        token_2022_program: init.token_2022_program,
        system_program: init.system_program,
        associated_token_program: program_account(ata_program_addr()),
        rent_sysvar: init.rent_sysvar,
    }
}

fn withdraw_of(d: &DepositAccounts) -> WithdrawAccounts {
    WithdrawAccounts {
        user_authority: d.user_authority,
        reserve_authority: d.reserve_authority,
        token_2022_mint: d.token_2022_mint,
        wrapper_token_mint: d.wrapper_token_mint,
        user_wrapper_token_account: d.user_wrapper_token_account,
        user_token_2022_token_account: d.user_token_2022_token_account,
        reserve_token_account: d.reserve_token_account,
        token_program: d.token_program,
        token_2022_program: d.token_2022_program,
        system_program: d.system_program,
        rent_sysvar: d.rent_sysvar,
    }
}

/// A user with 10,000 units of a 9-decimal underlying mint, ready to deposit
/// into a freshly initialized vault.
fn standard_vault(fee: Option<TransferFee>) -> (Address, DepositAccounts) {
    let program_id = mk_addr(7);
    let mint_account = underlying_mint(mk_addr(9), 9, 10_000, fee);
    let mut init = fresh_initialize(program_id, mint_account);
    assert_eq!(process_initialize_wrapper_token(program_id, &mut init), Ok(()));
    let user = Account {
        key: mk_addr(2),
        owner: system_addr(),
        is_signer: true,
        contents: AccountContents::Empty,
    };
    let user_t22 = holding(mk_addr(3), t22_addr(), mint_account.key, user.key, 10_000);
    let user_wrapper = holding(
        mk_addr(4),
        spl_token_addr(),
        init.wrapper_token_mint.key,
        user.key,
        0,
    );
    (program_id, deposit_after(&init, user, user_t22, user_wrapper))
}

#[test]
fn initialize_creates_vault() {
    let program_id = mk_addr(7);
    let mint_account = underlying_mint(mk_addr(9), 9, 10_000, None);
    let mut init = fresh_initialize(program_id, mint_account);
    let before = init;
    assert_eq!(process_initialize_wrapper_token(program_id, &mut init), Ok(()));

    assert!(address_eq(&init.wrapper_token_mint.owner, &spl_token_addr()));
    match init.wrapper_token_mint.contents {
        AccountContents::Mint(m) => {
            assert_eq!(m.decimals, 9);
            assert_eq!(m.supply, 0);
            assert!(m.is_initialized);
            assert_eq!(m.mint_authority, Some(init.reserve_authority.key));
            assert_eq!(m.freeze_authority, Some(init.reserve_authority.key));
        },
        _ => panic!("wrapper mint not initialized"),
    }
    assert!(address_eq(&init.reserve_token_account.owner, &t22_addr()));
    match init.reserve_token_account.contents {
        AccountContents::Token(t) => {
            assert_eq!(t.amount, 0);
            assert_eq!(t.mint, mint_account.key);
            assert_eq!(t.owner, init.reserve_authority.key);
        },
        _ => panic!("custody account not initialized"),
    }
    assert_eq!(init.payer, before.payer);
    assert_eq!(init.token_2022_mint, before.token_2022_mint);
}

#[test]
fn initialize_requires_signer() {
    let program_id = mk_addr(7);
    let mut init = fresh_initialize(program_id, underlying_mint(mk_addr(9), 9, 0, None));
    init.payer.is_signer = false;
    let before = init;
    assert_eq!(
        process_initialize_wrapper_token(program_id, &mut init),
        Err(VaultError::Wrapper(TokenWrapperError::MissingSigner))
    );
    assert_eq!(init, before);
}

#[test]
fn initialize_twice_fails_lifecycle() {
    let program_id = mk_addr(7);
    let mut init = fresh_initialize(program_id, underlying_mint(mk_addr(9), 9, 0, None));
    assert_eq!(process_initialize_wrapper_token(program_id, &mut init), Ok(()));
    let before = init;
    assert_eq!(
        process_initialize_wrapper_token(program_id, &mut init),
        Err(VaultError::Wrapper(TokenWrapperError::UnexpectedWrapperToken))
    );
    assert_eq!(init, before);
}

#[test]
fn concrete_scenario_deposit_then_withdraw() {
    let (program_id, mut ctx) = standard_vault(None);
    assert_eq!(
        process_deposit_and_mint_wrapper_tokens(program_id, &mut ctx, 5_000, false),
        Ok(())
    );
    assert_eq!(token_amount(&ctx.user_token_2022_token_account), 5_000);
    assert_eq!(token_amount(&ctx.user_wrapper_token_account), 5_000);
    assert_eq!(token_amount(&ctx.reserve_token_account), 5_000);
    assert_eq!(mint_supply(&ctx.wrapper_token_mint), 5_000);

    let mut back = withdraw_of(&ctx);
    assert_eq!(
        process_withdraw_and_burn_wrapper_tokens(program_id, &mut back, 5_000, false),
        Ok(())
    );
    assert_eq!(token_amount(&back.user_token_2022_token_account), 10_000);
    assert_eq!(token_amount(&back.user_wrapper_token_account), 0);
    assert_eq!(token_amount(&back.reserve_token_account), 0);
    assert_eq!(mint_supply(&back.wrapper_token_mint), 0);
}

#[test]
fn deposit_with_fee_mints_reduced_amount() {
    // 100 basis points = 1%: floor(5000 * 100 / 10000) = 50 withheld.
    let fee = TransferFee { basis_points: 100, maximum_fee: u64::MAX };
    let (program_id, mut ctx) = standard_vault(Some(fee));
    assert_eq!(
        process_deposit_and_mint_wrapper_tokens(program_id, &mut ctx, 5_000, false),
        Ok(())
    );
    assert_eq!(token_amount(&ctx.user_token_2022_token_account), 5_000);
    assert_eq!(token_amount(&ctx.reserve_token_account), 4_950);
    assert_eq!(token_amount(&ctx.user_wrapper_token_account), 4_950);
    assert_eq!(mint_supply(&ctx.wrapper_token_mint), 4_950);
}

#[test]
fn deposit_fee_cap_applies() {
    let fee = TransferFee { basis_points: 100, maximum_fee: 10 };
    let (program_id, mut ctx) = standard_vault(Some(fee));
    assert_eq!(
        process_deposit_and_mint_wrapper_tokens(program_id, &mut ctx, 5_000, false),
        Ok(())
    );
    assert_eq!(token_amount(&ctx.reserve_token_account), 4_990);
    assert_eq!(mint_supply(&ctx.wrapper_token_mint), 4_990);
}

#[test]
fn collateralization_holds_across_operations() {
    let fee = TransferFee { basis_points: 250, maximum_fee: 40 };
    let (program_id, mut ctx) = standard_vault(Some(fee));
    assert_eq!(
        process_deposit_and_mint_wrapper_tokens(program_id, &mut ctx, 3_000, false),
        Ok(())
    );
    assert_eq!(token_amount(&ctx.reserve_token_account), mint_supply(&ctx.wrapper_token_mint));
    assert_eq!(
        process_deposit_and_mint_wrapper_tokens(program_id, &mut ctx, 2_000, false),
        Ok(())
    );
    assert_eq!(token_amount(&ctx.reserve_token_account), mint_supply(&ctx.wrapper_token_mint));
    let mut back = withdraw_of(&ctx);
    assert_eq!(
        process_withdraw_and_burn_wrapper_tokens(program_id, &mut back, 1_500, false),
        Ok(())
    );
    assert_eq!(
        token_amount(&back.reserve_token_account),
        mint_supply(&back.wrapper_token_mint)
    );
}

#[test]
fn deposit_rejects_foreign_owner() {
    let (program_id, mut ctx) = standard_vault(None);
    ctx.user_token_2022_token_account = holding(
        mk_addr(3),
        t22_addr(),
        ctx.token_2022_mint.key,
        mk_addr(99),
        10_000,
    );
    let before = ctx;
    assert_eq!(
        process_deposit_and_mint_wrapper_tokens(program_id, &mut ctx, 5_000, false),
        Err(VaultError::Wrapper(TokenWrapperError::InvalidTokenAccount))
    );
    assert_eq!(ctx, before);
}

#[test]
fn withdraw_rejects_foreign_owner() {
    let (program_id, mut ctx) = standard_vault(None);
    assert_eq!(
        process_deposit_and_mint_wrapper_tokens(program_id, &mut ctx, 5_000, false),
        Ok(())
    );
    let mut back = withdraw_of(&ctx);
    back.user_wrapper_token_account = holding(
        mk_addr(4),
        spl_token_addr(),
        back.wrapper_token_mint.key,
        mk_addr(99),
        5_000,
    );
    let before = back;
    assert_eq!(
        process_withdraw_and_burn_wrapper_tokens(program_id, &mut back, 5_000, false),
        Err(VaultError::Wrapper(TokenWrapperError::InvalidTokenAccount))
    );
    assert_eq!(back, before);
}

#[test]
fn cross_vault_wrapper_mint_rejected() {
    let (program_id, mut ctx) = standard_vault(None);
    // A wrapper mint derived from a different underlying mint.
    let other_mint = underlying_mint(mk_addr(10), 9, 0, None);
    let other_init = fresh_initialize(program_id, other_mint);
    ctx.wrapper_token_mint = Account {
        owner: spl_token_addr(),
        ..other_init.wrapper_token_mint
    };
    let before = ctx;
    assert_eq!(
        process_deposit_and_mint_wrapper_tokens(program_id, &mut ctx, 5_000, false),
        Err(VaultError::Wrapper(TokenWrapperError::UnexpectedWrapperToken))
    );
    assert_eq!(ctx, before);
}

#[test]
fn cross_vault_reserve_account_rejected() {
    let (program_id, mut ctx) = standard_vault(None);
    let other_mint = underlying_mint(mk_addr(10), 9, 0, None);
    let other_init = fresh_initialize(program_id, other_mint);
    ctx.reserve_token_account = Account {
        owner: t22_addr(),
        ..other_init.reserve_token_account
    };
    assert_eq!(
        process_deposit_and_mint_wrapper_tokens(program_id, &mut ctx, 5_000, false),
        Err(VaultError::Wrapper(TokenWrapperError::UnexpectedReserveTokenAccount))
    );
}

#[test]
fn deposit_auto_creates_user_wrapper_account() {
    let (program_id, mut ctx) = standard_vault(None);
    let (ata_key, _) = get_associated_token_address(
        ctx.user_authority.key,
        spl_token_addr(),
        ctx.wrapper_token_mint.key,
    );
    ctx.user_wrapper_token_account = program_account(ata_key);
    assert_eq!(
        process_deposit_and_mint_wrapper_tokens(program_id, &mut ctx, 5_000, false),
        Ok(())
    );
    assert!(address_eq(&ctx.user_wrapper_token_account.owner, &spl_token_addr()));
    match ctx.user_wrapper_token_account.contents {
        AccountContents::Token(t) => {
            assert_eq!(t.amount, 5_000);
            assert_eq!(t.owner, ctx.user_authority.key);
            assert_eq!(t.mint, ctx.wrapper_token_mint.key);
        },
        _ => panic!("holding account not created"),
    }
}

#[test]
fn deposit_auto_create_rejects_wrong_address() {
    let (program_id, mut ctx) = standard_vault(None);
    ctx.user_wrapper_token_account = program_account(mk_addr(42));
    let before = ctx;
    assert_eq!(
        process_deposit_and_mint_wrapper_tokens(program_id, &mut ctx, 5_000, false),
        Err(VaultError::Upstream(UpstreamError::InvalidSeeds))
    );
    assert_eq!(ctx, before);
}

#[test]
fn deposit_insufficient_funds_rejected() {
    let (program_id, mut ctx) = standard_vault(None);
    let before = ctx;
    assert_eq!(
        process_deposit_and_mint_wrapper_tokens(program_id, &mut ctx, 20_000, false),
        Err(VaultError::Upstream(UpstreamError::InsufficientFunds))
    );
    assert_eq!(ctx, before);
}

#[test]
fn frozen_account_rejected() {
    let (program_id, mut ctx) = standard_vault(None);
    if let AccountContents::Token(t) = ctx.user_token_2022_token_account.contents {
        ctx.user_token_2022_token_account.contents =
            AccountContents::Token(TokenAccountState { is_frozen: true, ..t });
    }
    assert_eq!(
        process_deposit_and_mint_wrapper_tokens(program_id, &mut ctx, 5_000, false),
        Err(VaultError::Upstream(UpstreamError::AccountFrozen))
    );
}

#[test]
fn decimals_mismatch_aborts_whole_deposit() {
    let (program_id, mut ctx) = standard_vault(None);
    if let AccountContents::Mint(m) = ctx.wrapper_token_mint.contents {
        ctx.wrapper_token_mint.contents =
            AccountContents::Mint(MintState { decimals: 8, ..m });
    }
    let before = ctx;
    assert_eq!(
        process_deposit_and_mint_wrapper_tokens(program_id, &mut ctx, 5_000, false),
        Err(VaultError::Upstream(UpstreamError::DecimalsMismatch))
    );
    // The transfer leg would have succeeded on its own: the whole operation
    // must still leave every balance untouched.
    assert_eq!(ctx, before);
}

#[test]
fn wrong_mint_authority_rejected() {
    let (program_id, mut ctx) = standard_vault(None);
    if let AccountContents::Mint(m) = ctx.wrapper_token_mint.contents {
        ctx.wrapper_token_mint.contents = AccountContents::Mint(MintState {
            mint_authority: Some(mk_addr(55)),
            ..m
        });
    }
    let before = ctx;
    assert_eq!(
        process_deposit_and_mint_wrapper_tokens(program_id, &mut ctx, 5_000, false),
        Err(VaultError::Upstream(UpstreamError::OwnerMismatch))
    );
    assert_eq!(ctx, before);
}

#[test]
fn supply_underflow_rejected() {
    let (program_id, ctx) = standard_vault(None);
    // A corrupt state: the user somehow holds wrapper units while the supply
    // is zero. The burn must fail rather than wrap the supply around.
    let mut back = withdraw_of(&ctx);
    back.user_wrapper_token_account = holding(
        mk_addr(4),
        spl_token_addr(),
        back.wrapper_token_mint.key,
        back.user_authority.key,
        5,
    );
    assert_eq!(
        process_withdraw_and_burn_wrapper_tokens(program_id, &mut back, 5, false),
        Err(VaultError::Upstream(UpstreamError::SupplyUnderflow))
    );
}

#[test]
fn use_max_flag_moves_whole_balance() {
    let (program_id, mut ctx) = standard_vault(None);
    assert_eq!(
        process_deposit_and_mint_wrapper_tokens(program_id, &mut ctx, 1, true),
        Ok(())
    );
    assert_eq!(token_amount(&ctx.user_token_2022_token_account), 0);
    assert_eq!(token_amount(&ctx.user_wrapper_token_account), 10_000);

    let mut back = withdraw_of(&ctx);
    assert_eq!(
        process_withdraw_and_burn_wrapper_tokens(program_id, &mut back, 3, true),
        Ok(())
    );
    assert_eq!(token_amount(&back.user_wrapper_token_account), 0);
    assert_eq!(token_amount(&back.user_token_2022_token_account), 10_000);
}

#[test]
fn dispatcher_runs_deposit_from_payload() {
    let (program_id, ctx) = standard_vault(None);
    let mut accounts = vec![
        ctx.user_authority,
        ctx.reserve_authority,
        ctx.token_2022_mint,
        ctx.wrapper_token_mint,
        ctx.user_wrapper_token_account,
        ctx.user_token_2022_token_account,
        ctx.reserve_token_account,
        ctx.token_program,
        ctx.token_2022_program,
        ctx.system_program,
        ctx.associated_token_program,
        ctx.rent_sysvar,
    ];
    let payload = TokenWrapperInstruction::DepositAndMintWrapperTokens.pack_amount(5_000, false);
    assert_eq!(process_instruction(program_id, &mut accounts, &payload), Ok(()));
    assert_eq!(token_amount(&accounts[5]), 5_000);
    assert_eq!(token_amount(&accounts[4]), 5_000);
    assert_eq!(token_amount(&accounts[6]), 5_000);
    assert_eq!(mint_supply(&accounts[3]), 5_000);

    // The same payload with the use-maximum flag set moves the rest.
    let payload = TokenWrapperInstruction::DepositAndMintWrapperTokens.pack_amount(1, true);
    assert_eq!(process_instruction(program_id, &mut accounts, &payload), Ok(()));
    assert_eq!(token_amount(&accounts[5]), 0);
    assert_eq!(token_amount(&accounts[4]), 10_000);
}

#[test]
fn dispatcher_rejects_bad_payloads() {
    let (program_id, ctx) = standard_vault(None);
    let mut accounts = vec![ctx.user_authority];
    assert_eq!(
        process_instruction(program_id, &mut accounts, &[9]),
        Err(VaultError::InvalidInstructionData)
    );
    assert_eq!(
        process_instruction(program_id, &mut accounts, &[]),
        Err(VaultError::InvalidInstructionData)
    );
    assert_eq!(
        process_instruction(program_id, &mut accounts, &[1, 2, 3]),
        Err(VaultError::InvalidInstructionData)
    );
    // A well-formed deposit payload against too few accounts.
    let payload = TokenWrapperInstruction::DepositAndMintWrapperTokens.pack_amount(1, false);
    assert_eq!(
        process_instruction(program_id, &mut accounts, &payload),
        Err(VaultError::NotEnoughAccountKeys)
    );
}

#[test]
fn validators_accept_only_real_program_ids() {
    assert!(assert_token_program(spl_token_addr()).is_ok());
    assert!(assert_token_2022_program(t22_addr()).is_ok());
    assert!(assert_associated_token_program(ata_program_addr()).is_ok());
    assert!(assert_system_program(system_addr()).is_ok());
    assert!(assert_rent(rent_addr()).is_ok());

    assert_eq!(
        assert_token_program(t22_addr()),
        Err(TokenWrapperError::UnexpectedTokenProgram)
    );
    assert_eq!(
        assert_token_2022_program(spl_token_addr()),
        Err(TokenWrapperError::UnexpectedTokenProgram)
    );
    assert_eq!(
        assert_system_program(mk_addr(5)),
        Err(TokenWrapperError::UnexpectedTokenProgram)
    );
    assert_eq!(assert_rent(system_addr()), Err(TokenWrapperError::UnexpectedRent));
}

#[test]
fn derivations_match_the_runtime() {
    let mint = mk_addr(9);
    let program_id = mk_addr(7);
    let mint_pk = Pubkey::new_from_array(mint.bytes);
    let program_pk = Pubkey::new_from_array(program_id.bytes);

    let (wrapper, bump, seeds) = get_wrapper_token_mint(mint, program_id);
    let (expected, expected_bump) =
        Pubkey::find_program_address(&[b"wrapper", mint_pk.as_ref()], &program_pk);
    assert_eq!(wrapper.bytes, expected.to_bytes());
    assert_eq!(bump, expected_bump);
    assert_eq!(
        seeds,
        vec![b"wrapper".to_vec(), mint.bytes.to_vec(), vec![bump]]
    );
    assert_ne!(wrapper.bytes, mint.bytes);

    let (reserve_auth, _, seeds) = get_reserve_authority(mint, program_id);
    let (expected, _) =
        Pubkey::find_program_address(&[b"reserve_authority", mint_pk.as_ref()], &program_pk);
    assert_eq!(reserve_auth.bytes, expected.to_bytes());
    assert_eq!(seeds[0], b"reserve_authority".to_vec());

    let (reserve_acct, _, seeds) =
        get_reserve_authority_token_account(mint, reserve_auth, program_id);
    let (expected, _) = Pubkey::find_program_address(
        &[
            b"reserve_authority_token_account",
            mint_pk.as_ref(),
            Pubkey::new_from_array(reserve_auth.bytes).as_ref(),
        ],
        &program_pk,
    );
    assert_eq!(reserve_acct.bytes, expected.to_bytes());
    assert_eq!(seeds.len(), 4);

    let (mint_auth, _, _) = get_token_mint_authority(mint, program_id);
    let (expected, _) =
        Pubkey::find_program_address(&[b"mint_authority", mint_pk.as_ref()], &program_pk);
    assert_eq!(mint_auth.bytes, expected.to_bytes());

    let (freeze_auth, _, _) = get_token_freeze_authority(mint, program_id);
    let (expected, _) =
        Pubkey::find_program_address(&[b"freeze_authority", mint_pk.as_ref()], &program_pk);
    assert_eq!(freeze_auth.bytes, expected.to_bytes());

    // Determinism, and distinct tags give distinct addresses here.
    let (wrapper_again, _, _) = get_wrapper_token_mint(mint, program_id);
    assert_eq!(wrapper.bytes, wrapper_again.bytes);
    assert_ne!(wrapper.bytes, reserve_auth.bytes);
    assert_ne!(mint_auth.bytes, freeze_auth.bytes);
}

#[test]
fn ata_derivation_matches_the_runtime() {
    let wallet = mk_addr(2);
    let mint = mk_addr(4);
    let (ata, _) = get_associated_token_address(wallet, spl_token_addr(), mint);
    let expected = spl_associated_token_account::get_associated_token_address_with_program_id(
        &Pubkey::new_from_array(wallet.bytes),
        &Pubkey::new_from_array(mint.bytes),
        &spl_token::id(),
    );
    assert_eq!(ata.bytes, expected.to_bytes());
}

#[test]
fn wrong_reserve_authority_rejected() {
    let (program_id, mut ctx) = standard_vault(None);
    ctx.reserve_authority = program_account(mk_addr(66));
    assert_eq!(
        process_deposit_and_mint_wrapper_tokens(program_id, &mut ctx, 5_000, false),
        Err(VaultError::Wrapper(TokenWrapperError::UnexpectedReserveAuthority))
    );
}

#[test]
fn uninitialized_underlying_mint_rejected() {
    let program_id = mk_addr(7);
    let mut dead_mint = underlying_mint(mk_addr(9), 9, 0, None);
    if let AccountContents::Mint(m) = dead_mint.contents {
        dead_mint.contents = AccountContents::Mint(MintState { is_initialized: false, ..m });
    }
    let mut init = fresh_initialize(program_id, dead_mint);
    assert_eq!(
        process_initialize_wrapper_token(program_id, &mut init),
        Err(VaultError::Wrapper(TokenWrapperError::InvalidTokenMint))
    );
}

#[test]
fn malformed_mint_record_rejected() {
    let program_id = mk_addr(7);
    // The supplied underlying mint account holds no mint record at all.
    let not_a_mint = Account {
        key: mk_addr(9),
        owner: t22_addr(),
        is_signer: false,
        contents: AccountContents::Empty,
    };
    let mut init = fresh_initialize(program_id, not_a_mint);
    assert_eq!(
        process_initialize_wrapper_token(program_id, &mut init),
        Err(VaultError::InvalidAccountData)
    );
}

#[test]
fn initialize_rejects_occupied_derived_account() {
    let program_id = mk_addr(7);
    let mut init = fresh_initialize(program_id, underlying_mint(mk_addr(9), 9, 0, None));
    // Still system-owned, but something already sits in the derived slot.
    init.wrapper_token_mint.contents = AccountContents::Token(TokenAccountState {
        mint: mk_addr(8),
        owner: mk_addr(8),
        amount: 0,
        is_frozen: false,
    });
    assert_eq!(
        process_initialize_wrapper_token(program_id, &mut init),
        Err(VaultError::Upstream(UpstreamError::AlreadyInUse))
    );
}

#[test]
fn deposit_overflowing_custody_rejected() {
    let (program_id, mut ctx) = standard_vault(None);
    ctx.user_token_2022_token_account = holding(
        mk_addr(3),
        t22_addr(),
        ctx.token_2022_mint.key,
        ctx.user_authority.key,
        u64::MAX,
    );
    if let AccountContents::Token(t) = ctx.reserve_token_account.contents {
        ctx.reserve_token_account.contents =
            AccountContents::Token(TokenAccountState { amount: 10, ..t });
    }
    let before = ctx;
    assert_eq!(
        process_deposit_and_mint_wrapper_tokens(program_id, &mut ctx, u64::MAX, false),
        Err(VaultError::Upstream(UpstreamError::Overflow))
    );
    assert_eq!(ctx, before);
}
