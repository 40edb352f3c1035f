//! The vault operation engine.
//!
//! Three operations, each one atomic transaction: initialize a vault for an
//! underlying mint, deposit underlying units and mint wrapper units, or burn
//! wrapper units and withdraw underlying units. Every operation re-derives
//! the addresses it needs from the supplied accounts, runs the validators to
//! completion, performs the token-program sub-calls, and commits only if all
//! of them succeed; the first failure aborts with no partial effect.
//!
//! A deposit mints exactly the measured increase of the custody balance, not
//! the instructed amount: the underlying mint may withhold a fee from the
//! destination credit, and minting the measured delta is what keeps the
//! custody balance equal to the wrapper supply under any fee policy. A
//! withdrawal burns and debits the same amount, so the equality holds there
//! even though the user may receive less after the fee.

use vstd::prelude::*;

use crate::addr::{address_eq, Address};
use crate::error::{TokenWrapperError, UpstreamError, VaultError};
use crate::ids::{
    rent_sysvar_id_bytes, system_program_id_bytes, token_2022_program_id,
    token_2022_program_id_bytes, token_program_id, token_program_id_bytes,
};
use crate::instruction::TokenWrapperInstruction;
use crate::pda::{associated_token_pda, get_associated_token_address};
use crate::state::{Account, AccountContents, MintState, TokenAccountState};
use crate::token::{
    burn_checked, create_account, create_associated_token_account, credited_for,
    initialize_account, initialize_mint, mint_to_checked, transfer_checked,
};
use crate::validate::{
    assert_rent, assert_reserve_authority, assert_reserve_authority_token_account,
    assert_system_program, assert_token_2022_program, assert_token_program,
    assert_with_msg, assert_wrapper_token_mint, mint_ok, reserve_authority_ok,
    reserve_token_account_ok, token_account_ok, validate_mint, validate_token_account,
    wrapper_token_mint_ok,
};

verus! {

/// The fixed-order account list of an initialize operation.
#[derive(Clone, Copy, Debug, PartialEq, Eq)]
pub struct InitializeAccounts {
    /// Signs and funds the creation of the two vault accounts.
    pub payer: Account,
    /// The underlying mint being wrapped; read only.
    pub token_2022_mint: Account,
    /// The wrapper mint to create, at its derived address.
    pub wrapper_token_mint: Account,
    /// The derived reserve authority.
    pub reserve_authority: Account,
    /// The custody account to create, at its derived address.
    pub reserve_token_account: Account,
    /// The token program hosting the wrapper mint.
    pub token_program: Account,
    /// The fee-capable token program hosting the underlying mint.
    pub token_2022_program: Account,
    /// The system program.
    pub system_program: Account,
    /// The rent sysvar.
    pub rent_sysvar: Account,
}

/// The fixed-order account list of a deposit operation.
#[derive(Clone, Copy, Debug, PartialEq, Eq)]
pub struct DepositAccounts {
    /// The depositing user; signs the transfer of underlying units.
    pub user_authority: Account,
    /// The derived reserve authority.
    pub reserve_authority: Account,
    /// The underlying mint; read only.
    pub token_2022_mint: Account,
    /// The wrapper mint; its supply grows by the minted amount.
    pub wrapper_token_mint: Account,
    /// The user's wrapper holding; auto-created at its derived address when
    /// still system-owned.
    pub user_wrapper_token_account: Account,
    /// The user's underlying holding; debited by the deposited amount.
    pub user_token_2022_token_account: Account,
    /// The custody account; credited with the deposit less any withheld fee.
    pub reserve_token_account: Account,
    /// The token program hosting the wrapper mint.
    pub token_program: Account,
    /// The fee-capable token program hosting the underlying mint.
    pub token_2022_program: Account,
    /// The system program.
    pub system_program: Account,
    /// The program that creates derived holding accounts.
    pub associated_token_program: Account,
    /// The rent sysvar.
    pub rent_sysvar: Account,
}

/// The fixed-order account list of a withdraw operation.
#[derive(Clone, Copy, Debug, PartialEq, Eq)]
pub struct WithdrawAccounts {
    /// The withdrawing user; signs the burn of wrapper units.
    pub user_authority: Account,
    /// The derived reserve authority.
    pub reserve_authority: Account,
    /// The underlying mint; read only.
    pub token_2022_mint: Account,
    /// The wrapper mint; its supply shrinks by the burned amount.
    pub wrapper_token_mint: Account,
    /// The user's wrapper holding; debited by the burned amount.
    pub user_wrapper_token_account: Account,
    /// The user's underlying holding; credited with the withdrawal less any
    /// withheld fee.
    pub user_token_2022_token_account: Account,
    /// The custody account; debited by the full withdrawn amount.
    pub reserve_token_account: Account,
    /// The token program hosting the wrapper mint.
    pub token_program: Account,
    /// The fee-capable token program hosting the underlying mint.
    pub token_2022_program: Account,
    /// The system program.
    pub system_program: Account,
    /// The rent sysvar.
    pub rent_sysvar: Account,
}

/// Every check an initialize operation runs, as one conjunction: the payer
/// signs, the wrapper mint and custody account sit at their derived
/// addresses still uncreated, the named programs are the real ones, and the
/// underlying mint is live.
pub open spec fn initialize_accepted(program_id: Address, a: InitializeAccounts) -> bool {
    &&& a.payer.is_signer
    &&& wrapper_token_mint_ok(a.token_2022_mint.key, program_id, a.wrapper_token_mint, false)
    &&& reserve_authority_ok(a.token_2022_mint.key, program_id, a.reserve_authority)
    &&& reserve_token_account_ok(
        a.token_2022_mint.key,
        a.reserve_authority.key,
        program_id,
        a.reserve_token_account,
        false,
    )
    &&& a.token_program.key.bytes@ == token_program_id_bytes()
    &&& a.system_program.key.bytes@ == system_program_id_bytes()
    &&& a.rent_sysvar.key.bytes@ == rent_sysvar_id_bytes()
    &&& mint_ok(a.token_2022_mint, true)
    &&& a.wrapper_token_mint.contents is Empty
    &&& a.reserve_token_account.contents is Empty
}

/// The first failure an initialize operation hits, in the order the checks
/// run; `None` exactly when the operation is accepted.
pub open spec fn initialize_check(program_id: Address, a: InitializeAccounts) -> Option<
    VaultError,
> {
    if !a.payer.is_signer {
        Option::Some(VaultError::Wrapper(TokenWrapperError::MissingSigner))
    } else if !wrapper_token_mint_ok(a.token_2022_mint.key, program_id, a.wrapper_token_mint, false) {
        Option::Some(VaultError::Wrapper(TokenWrapperError::UnexpectedWrapperToken))
    } else if !reserve_authority_ok(a.token_2022_mint.key, program_id, a.reserve_authority) {
        Option::Some(VaultError::Wrapper(TokenWrapperError::UnexpectedReserveAuthority))
    } else if !reserve_token_account_ok(
        a.token_2022_mint.key,
        a.reserve_authority.key,
        program_id,
        a.reserve_token_account,
        false,
    ) {
        Option::Some(VaultError::Wrapper(TokenWrapperError::UnexpectedReserveTokenAccount))
    } else if a.token_program.key.bytes@ != token_program_id_bytes() {
        Option::Some(VaultError::Wrapper(TokenWrapperError::UnexpectedTokenProgram))
    } else if a.system_program.key.bytes@ != system_program_id_bytes() {
        Option::Some(VaultError::Wrapper(TokenWrapperError::UnexpectedTokenProgram))
    } else if a.rent_sysvar.key.bytes@ != rent_sysvar_id_bytes() {
        Option::Some(VaultError::Wrapper(TokenWrapperError::UnexpectedRent))
    } else if !(a.token_2022_mint.contents is Mint) {
        Option::Some(VaultError::InvalidAccountData)
    } else if !mint_ok(a.token_2022_mint, true) {
        Option::Some(VaultError::Wrapper(TokenWrapperError::InvalidTokenMint))
    } else if !(a.wrapper_token_mint.contents is Empty) {
        Option::Some(VaultError::Upstream(UpstreamError::AlreadyInUse))
    } else if !(a.reserve_token_account.contents is Empty) {
        Option::Some(VaultError::Upstream(UpstreamError::AlreadyInUse))
    } else {
        Option::None
    }
}

/// The committed state of an accepted initialize: the wrapper mint is live
/// with the underlying mint's decimals and both authorities set to the
/// reserve authority, and the custody account is live, empty, bound to the
/// underlying mint and owned by the reserve authority.
pub open spec fn initialize_apply(a: InitializeAccounts) -> InitializeAccounts {
    InitializeAccounts {
        wrapper_token_mint: Account {
            owner: crate::ids::token_program_address(),
            contents: AccountContents::Mint(
                MintState {
                    mint_authority: Option::Some(a.reserve_authority.key),
                    freeze_authority: Option::Some(a.reserve_authority.key),
                    decimals: a.token_2022_mint.mint_state().decimals,
                    supply: 0,
                    is_initialized: true,
                    transfer_fee: Option::None,
                },
            ),
            ..a.wrapper_token_mint
        },
        reserve_token_account: Account {
            owner: crate::ids::token_2022_program_address(),
            contents: AccountContents::Token(
                TokenAccountState {
                    mint: a.token_2022_mint.key,
                    owner: a.reserve_authority.key,
                    amount: 0,
                    is_frozen: false,
                },
            ),
            ..a.reserve_token_account
        },
        ..a
    }
}

/// Creates and initializes the wrapper mint and the custody account for one
/// underlying mint. Fails closed if either derived account is already
/// created, so a second initialization cannot touch a live vault.
pub fn process_initialize_wrapper_token(
    program_id: Address,
    accounts: &mut InitializeAccounts,
) -> (r: Result<(), VaultError>)
    ensures
        (r is Ok) == initialize_accepted(program_id, *old(accounts)),
        r matches Err(e) ==> {
            &&& Option::Some(e) == initialize_check(program_id, *old(accounts))
            &&& *final(accounts) == *old(accounts)
        },
        r is Ok ==> *final(accounts) == initialize_apply(*old(accounts)),
{
    let mut work = *accounts;

    match assert_with_msg(
        work.payer.is_signer,
        TokenWrapperError::MissingSigner,
        "The payer account needs to be a signer",
    ) {
        Ok(()) => {},
        Err(e) => { return Err(VaultError::Wrapper(e)) },
    }
    match assert_wrapper_token_mint(
        work.token_2022_mint.key,
        program_id,
        &work.wrapper_token_mint,
        false,
    ) {
        Ok(()) => {},
        Err(e) => { return Err(VaultError::Wrapper(e)) },
    }
    match assert_reserve_authority(work.token_2022_mint.key, program_id, &work.reserve_authority) {
        Ok(()) => {},
        Err(e) => { return Err(VaultError::Wrapper(e)) },
    }
    match assert_reserve_authority_token_account(
        work.token_2022_mint.key,
        work.reserve_authority.key,
        program_id,
        &work.reserve_token_account,
        false,
    ) {
        Ok(()) => {},
        Err(e) => { return Err(VaultError::Wrapper(e)) },
    }
    match assert_token_program(work.token_program.key) {
        Ok(()) => {},
        Err(e) => { return Err(VaultError::Wrapper(e)) },
    }
    match assert_system_program(work.system_program.key) {
        Ok(()) => {},
        Err(e) => { return Err(VaultError::Wrapper(e)) },
    }
    match assert_rent(work.rent_sysvar.key) {
        Ok(()) => {},
        Err(e) => { return Err(VaultError::Wrapper(e)) },
    }
    match validate_mint(&work.token_2022_mint, true) {
        Ok(()) => {},
        Err(e) => { return Err(e) },
    }

    let token_2022_decimals = match work.token_2022_mint.contents {
        AccountContents::Mint(m) => m.decimals,
        _ => { return Err(VaultError::InvalidAccountData) },
    };

    match create_account(&work.payer, &mut work.wrapper_token_mint, token_program_id()) {
        Ok(()) => {},
        Err(e) => { return Err(e) },
    }
    match initialize_mint(
        token_program_id(),
        &mut work.wrapper_token_mint,
        token_2022_decimals,
        work.reserve_authority.key,
        Some(work.reserve_authority.key),
    ) {
        Ok(()) => {},
        Err(e) => { return Err(e) },
    }
    match create_account(&work.payer, &mut work.reserve_token_account, token_2022_program_id()) {
        Ok(()) => {},
        Err(e) => { return Err(e) },
    }
    match initialize_account(
        token_2022_program_id(),
        &mut work.reserve_token_account,
        &work.token_2022_mint,
        work.reserve_authority.key,
    ) {
        Ok(()) => {},
        Err(e) => { return Err(e) },
    }

    *accounts = work;
    Ok(())
}

/// Whether the user's wrapper holding account still has to be created: it is
/// auto-created exactly when the supplied account is still system-owned.
pub open spec fn deposit_needs_ata(a: DepositAccounts) -> bool {
    a.user_wrapper_token_account.owner.bytes@ == system_program_id_bytes()
}

/// The user's wrapper holding as the operation sees it after the optional
/// auto-creation: a fresh empty holding bound to the wrapper mint and owned
/// by the user, or the supplied account unchanged.
pub open spec fn deposit_created_user_wrapper(a: DepositAccounts) -> Account {
    if deposit_needs_ata(a) {
        Account {
            owner: crate::ids::token_program_address(),
            contents: AccountContents::Token(
                TokenAccountState {
                    mint: a.wrapper_token_mint.key,
                    owner: a.user_authority.key,
                    amount: 0,
                    is_frozen: false,
                },
            ),
            ..a.user_wrapper_token_account
        }
    } else {
        a.user_wrapper_token_account
    }
}

/// The amount a deposit moves: the stated amount, or the user's whole
/// underlying balance when the use-maximum flag is set. The flag resolves
/// against the balance observed when the operation validates its accounts.
pub open spec fn deposit_amount(a: DepositAccounts, amount: u64, use_max_amount: bool) -> u64 {
    if use_max_amount {
        a.user_token_2022_token_account.token_state().amount
    } else {
        amount
    }
}

/// What a deposit credits to custody and mints to the user: the moved amount
/// less any fee the underlying mint withholds from the destination credit.
pub open spec fn deposit_credited(a: DepositAccounts, amount: u64, use_max_amount: bool) -> int {
    credited_for(
        a.token_2022_mint.mint_state().transfer_fee,
        deposit_amount(a, amount, use_max_amount),
    )
}

/// Every check a deposit runs, as one conjunction: the user signs, the vault
/// accounts sit at their derived addresses in the initialized stage, the
/// named programs are the real ones, every holding matches its expected
/// owner and mint, nothing is frozen, the user holds enough, and no balance
/// overflows.
pub open spec fn deposit_accepted(
    program_id: Address,
    a: DepositAccounts,
    amount: u64,
    use_max_amount: bool,
) -> bool {
    let uw = deposit_created_user_wrapper(a);
    let actual = deposit_amount(a, amount, use_max_amount);
    let credited = deposit_credited(a, amount, use_max_amount);
    &&& a.user_authority.is_signer
    &&& wrapper_token_mint_ok(a.token_2022_mint.key, program_id, a.wrapper_token_mint, true)
    &&& reserve_authority_ok(a.token_2022_mint.key, program_id, a.reserve_authority)
    &&& reserve_token_account_ok(
        a.token_2022_mint.key,
        a.reserve_authority.key,
        program_id,
        a.reserve_token_account,
        true,
    )
    &&& a.token_program.key.bytes@ == token_program_id_bytes()
    &&& a.token_2022_program.key.bytes@ == token_2022_program_id_bytes()
    &&& a.system_program.key.bytes@ == system_program_id_bytes()
    &&& a.rent_sysvar.key.bytes@ == rent_sysvar_id_bytes()
    &&& (deposit_needs_ata(a) ==> {
        &&& a.user_wrapper_token_account.key.bytes@ == associated_token_pda(
            a.user_authority.key.bytes@,
            token_program_id_bytes(),
            a.wrapper_token_mint.key.bytes@,
        ).0
        &&& a.user_wrapper_token_account.contents is Empty
    })
    &&& mint_ok(a.token_2022_mint, true)
    &&& mint_ok(a.wrapper_token_mint, false)
    &&& token_account_ok(
        a.user_token_2022_token_account,
        a.user_authority.key,
        a.token_2022_mint.key,
        true,
    )
    &&& token_account_ok(uw, a.user_authority.key, a.wrapper_token_mint.key, false)
    &&& token_account_ok(
        a.reserve_token_account,
        a.reserve_authority.key,
        a.token_2022_mint.key,
        true,
    )
    &&& !a.user_token_2022_token_account.token_state().is_frozen
    &&& !a.reserve_token_account.token_state().is_frozen
    &&& actual <= a.user_token_2022_token_account.token_state().amount
    &&& a.reserve_token_account.token_state().amount + credited <= u64::MAX
    &&& a.wrapper_token_mint.mint_state().decimals == a.token_2022_mint.mint_state().decimals
    &&& !uw.token_state().is_frozen
    &&& (a.wrapper_token_mint.mint_state().mint_authority matches Some(k) && k.bytes@
        == a.reserve_authority.key.bytes@)
    &&& a.wrapper_token_mint.mint_state().supply + credited <= u64::MAX
    &&& uw.token_state().amount + credited <= u64::MAX
}

/// The first failure a deposit hits, in the order the checks run; `None`
/// exactly when the operation is accepted.
pub open spec fn deposit_check(
    program_id: Address,
    a: DepositAccounts,
    amount: u64,
    use_max_amount: bool,
) -> Option<VaultError> {
    let uw = deposit_created_user_wrapper(a);
    let actual = deposit_amount(a, amount, use_max_amount);
    let credited = deposit_credited(a, amount, use_max_amount);
    if !a.user_authority.is_signer {
        Option::Some(VaultError::Wrapper(TokenWrapperError::MissingSigner))
    } else if !wrapper_token_mint_ok(a.token_2022_mint.key, program_id, a.wrapper_token_mint, true) {
        Option::Some(VaultError::Wrapper(TokenWrapperError::UnexpectedWrapperToken))
    } else if !reserve_authority_ok(a.token_2022_mint.key, program_id, a.reserve_authority) {
        Option::Some(VaultError::Wrapper(TokenWrapperError::UnexpectedReserveAuthority))
    } else if !reserve_token_account_ok(
        a.token_2022_mint.key,
        a.reserve_authority.key,
        program_id,
        a.reserve_token_account,
        true,
    ) {
        Option::Some(VaultError::Wrapper(TokenWrapperError::UnexpectedReserveTokenAccount))
    } else if a.token_program.key.bytes@ != token_program_id_bytes() {
        Option::Some(VaultError::Wrapper(TokenWrapperError::UnexpectedTokenProgram))
    } else if a.token_2022_program.key.bytes@ != token_2022_program_id_bytes() {
        Option::Some(VaultError::Wrapper(TokenWrapperError::UnexpectedTokenProgram))
    } else if a.system_program.key.bytes@ != system_program_id_bytes() {
        Option::Some(VaultError::Wrapper(TokenWrapperError::UnexpectedTokenProgram))
    } else if a.rent_sysvar.key.bytes@ != rent_sysvar_id_bytes() {
        Option::Some(VaultError::Wrapper(TokenWrapperError::UnexpectedRent))
    } else if !(a.token_2022_mint.contents is Mint) {
        Option::Some(VaultError::InvalidAccountData)
    } else if deposit_needs_ata(a) && a.user_wrapper_token_account.key.bytes@
        != associated_token_pda(
        a.user_authority.key.bytes@,
        token_program_id_bytes(),
        a.wrapper_token_mint.key.bytes@,
    ).0 {
        Option::Some(VaultError::Upstream(UpstreamError::InvalidSeeds))
    } else if deposit_needs_ata(a) && !(a.user_wrapper_token_account.contents is Empty) {
        Option::Some(VaultError::Upstream(UpstreamError::AlreadyInUse))
    } else if deposit_needs_ata(a) && !mint_ok(a.wrapper_token_mint, false) {
        Option::Some(VaultError::Upstream(UpstreamError::UninitializedMint))
    } else if !mint_ok(a.token_2022_mint, true) {
        Option::Some(VaultError::Wrapper(TokenWrapperError::InvalidTokenMint))
    } else if !(a.wrapper_token_mint.contents is Mint) {
        Option::Some(VaultError::InvalidAccountData)
    } else if !mint_ok(a.wrapper_token_mint, false) {
        Option::Some(VaultError::Wrapper(TokenWrapperError::InvalidTokenMint))
    } else if !(a.user_token_2022_token_account.contents is Token) {
        Option::Some(VaultError::InvalidAccountData)
    } else if !token_account_ok(
        a.user_token_2022_token_account,
        a.user_authority.key,
        a.token_2022_mint.key,
        true,
    ) {
        Option::Some(VaultError::Wrapper(TokenWrapperError::InvalidTokenAccount))
    } else if !(uw.contents is Token) {
        Option::Some(VaultError::InvalidAccountData)
    } else if !token_account_ok(uw, a.user_authority.key, a.wrapper_token_mint.key, false) {
        Option::Some(VaultError::Wrapper(TokenWrapperError::InvalidTokenAccount))
    } else if !(a.reserve_token_account.contents is Token) {
        Option::Some(VaultError::InvalidAccountData)
    } else if !token_account_ok(
        a.reserve_token_account,
        a.reserve_authority.key,
        a.token_2022_mint.key,
        true,
    ) {
        Option::Some(VaultError::Wrapper(TokenWrapperError::InvalidTokenAccount))
    } else if a.user_token_2022_token_account.token_state().is_frozen
        || a.reserve_token_account.token_state().is_frozen {
        Option::Some(VaultError::Upstream(UpstreamError::AccountFrozen))
    } else if actual > a.user_token_2022_token_account.token_state().amount {
        Option::Some(VaultError::Upstream(UpstreamError::InsufficientFunds))
    } else if a.reserve_token_account.token_state().amount + credited > u64::MAX {
        Option::Some(VaultError::Upstream(UpstreamError::Overflow))
    } else if a.wrapper_token_mint.mint_state().decimals
        != a.token_2022_mint.mint_state().decimals {
        Option::Some(VaultError::Upstream(UpstreamError::DecimalsMismatch))
    } else if uw.token_state().is_frozen {
        Option::Some(VaultError::Upstream(UpstreamError::AccountFrozen))
    } else if !(a.wrapper_token_mint.mint_state().mint_authority matches Some(k) && k.bytes@
        == a.reserve_authority.key.bytes@) {
        Option::Some(VaultError::Upstream(UpstreamError::OwnerMismatch))
    } else if a.wrapper_token_mint.mint_state().supply + credited > u64::MAX
        || uw.token_state().amount + credited > u64::MAX {
        Option::Some(VaultError::Upstream(UpstreamError::Overflow))
    } else {
        Option::None
    }
}

/// The committed state of an accepted deposit: the user's underlying holding
/// is debited by the moved amount, custody and the user's wrapper holding
/// are credited with the amount less any withheld fee, and the wrapper
/// supply grows by the same credited amount.
pub open spec fn deposit_apply(a: DepositAccounts, amount: u64, use_max_amount: bool) -> DepositAccounts {
    let uw = deposit_created_user_wrapper(a);
    let actual = deposit_amount(a, amount, use_max_amount);
    let credited = deposit_credited(a, amount, use_max_amount);
    DepositAccounts {
        user_token_2022_token_account: Account {
            contents: AccountContents::Token(
                TokenAccountState {
                    amount: (a.user_token_2022_token_account.token_state().amount - actual) as u64,
                    ..a.user_token_2022_token_account.token_state()
                },
            ),
            ..a.user_token_2022_token_account
        },
        reserve_token_account: Account {
            contents: AccountContents::Token(
                TokenAccountState {
                    amount: (a.reserve_token_account.token_state().amount + credited) as u64,
                    ..a.reserve_token_account.token_state()
                },
            ),
            ..a.reserve_token_account
        },
        wrapper_token_mint: Account {
            contents: AccountContents::Mint(
                MintState {
                    supply: (a.wrapper_token_mint.mint_state().supply + credited) as u64,
                    ..a.wrapper_token_mint.mint_state()
                },
            ),
            ..a.wrapper_token_mint
        },
        user_wrapper_token_account: Account {
            contents: AccountContents::Token(
                TokenAccountState {
                    amount: (uw.token_state().amount + credited) as u64,
                    ..uw.token_state()
                },
            ),
            ..uw
        },
        ..a
    }
}

/// Moves underlying units from the user into custody and mints wrapper
/// units to the user. The minted amount is the measured increase of the
/// custody balance — the transferred amount less any fee the underlying
/// mint withheld — so custody stays equal to the wrapper supply under any
/// fee policy.
#[verifier::rlimit(60)]
pub fn process_deposit_and_mint_wrapper_tokens(
    program_id: Address,
    accounts: &mut DepositAccounts,
    amount: u64,
    use_max_amount: bool,
) -> (r: Result<(), VaultError>)
    ensures
        (r is Ok) == deposit_accepted(program_id, *old(accounts), amount, use_max_amount),
        r matches Err(e) ==> {
            &&& Option::Some(e) == deposit_check(program_id, *old(accounts), amount, use_max_amount)
            &&& *final(accounts) == *old(accounts)
        },
        r is Ok ==> *final(accounts) == deposit_apply(*old(accounts), amount, use_max_amount),
{
    let mut work = *accounts;

    match assert_with_msg(
        work.user_authority.is_signer,
        TokenWrapperError::MissingSigner,
        "The user authority needs to be a signer",
    ) {
        Ok(()) => {},
        Err(e) => { return Err(VaultError::Wrapper(e)) },
    }
    match assert_wrapper_token_mint(
        work.token_2022_mint.key,
        program_id,
        &work.wrapper_token_mint,
        true,
    ) {
        Ok(()) => {},
        Err(e) => { return Err(VaultError::Wrapper(e)) },
    }
    match assert_reserve_authority(work.token_2022_mint.key, program_id, &work.reserve_authority) {
        Ok(()) => {},
        Err(e) => { return Err(VaultError::Wrapper(e)) },
    }
    match assert_reserve_authority_token_account(
        work.token_2022_mint.key,
        work.reserve_authority.key,
        program_id,
        &work.reserve_token_account,
        true,
    ) {
        Ok(()) => {},
        Err(e) => { return Err(VaultError::Wrapper(e)) },
    }
    match assert_token_program(work.token_program.key) {
        Ok(()) => {},
        Err(e) => { return Err(VaultError::Wrapper(e)) },
    }
    match assert_token_2022_program(work.token_2022_program.key) {
        Ok(()) => {},
        Err(e) => { return Err(VaultError::Wrapper(e)) },
    }
    match assert_system_program(work.system_program.key) {
        Ok(()) => {},
        Err(e) => { return Err(VaultError::Wrapper(e)) },
    }
    match assert_rent(work.rent_sysvar.key) {
        Ok(()) => {},
        Err(e) => { return Err(VaultError::Wrapper(e)) },
    }

    let token_2022_decimals = match work.token_2022_mint.contents {
        AccountContents::Mint(m) => m.decimals,
        _ => { return Err(VaultError::InvalidAccountData) },
    };

    if address_eq(&work.user_wrapper_token_account.owner, &crate::ids::system_program_id()) {
        let (expected_ata, _) = get_associated_token_address(
            work.user_authority.key,
            token_program_id(),
            work.wrapper_token_mint.key,
        );
        match create_associated_token_account(
            &work.user_authority,
            &mut work.user_wrapper_token_account,
            work.user_authority.key,
            &work.wrapper_token_mint,
            token_program_id(),
            expected_ata,
        ) {
            Ok(()) => {},
            Err(e) => { return Err(e) },
        }
    }

    match validate_mint(&work.token_2022_mint, true) {
        Ok(()) => {},
        Err(e) => { return Err(e) },
    }
    match validate_mint(&work.wrapper_token_mint, false) {
        Ok(()) => {},
        Err(e) => { return Err(e) },
    }
    match validate_token_account(
        &work.user_token_2022_token_account,
        work.user_authority.key,
        work.token_2022_mint.key,
        true,
    ) {
        Ok(()) => {},
        Err(e) => { return Err(e) },
    }
    match validate_token_account(
        &work.user_wrapper_token_account,
        work.user_authority.key,
        work.wrapper_token_mint.key,
        false,
    ) {
        Ok(()) => {},
        Err(e) => { return Err(e) },
    }
    match validate_token_account(
        &work.reserve_token_account,
        work.reserve_authority.key,
        work.token_2022_mint.key,
        true,
    ) {
        Ok(()) => {},
        Err(e) => { return Err(e) },
    }

    let actual_amount = if use_max_amount {
        match work.user_token_2022_token_account.contents {
            AccountContents::Token(t) => t.amount,
            _ => { return Err(VaultError::InvalidAccountData) },
        }
    } else {
        amount
    };

    let pre_transfer_balance = match work.reserve_token_account.contents {
        AccountContents::Token(t) => t.amount,
        _ => { return Err(VaultError::InvalidAccountData) },
    };

    match transfer_checked(
        token_2022_program_id(),
        &mut work.user_token_2022_token_account,
        &work.token_2022_mint,
        &mut work.reserve_token_account,
        work.user_authority.key,
        actual_amount,
        token_2022_decimals,
    ) {
        Ok(()) => {},
        Err(e) => { return Err(e) },
    }

    let post_transfer_balance = match work.reserve_token_account.contents {
        AccountContents::Token(t) => t.amount,
        _ => { return Err(VaultError::InvalidAccountData) },
    };
    proof {
        crate::token::lemma_fee_bounds(
            old(accounts).token_2022_mint.mint_state().transfer_fee,
            actual_amount,
        );
    }
    let minted_amount = post_transfer_balance - pre_transfer_balance;

    match mint_to_checked(
        token_program_id(),
        &mut work.wrapper_token_mint,
        &mut work.user_wrapper_token_account,
        work.reserve_authority.key,
        minted_amount,
        token_2022_decimals,
    ) {
        Ok(()) => {},
        Err(e) => { return Err(e) },
    }

    *accounts = work;
    Ok(())
}

/// The amount a withdrawal burns and releases: the stated amount, or the
/// user's whole wrapper balance when the use-maximum flag is set. The flag
/// resolves against the balance observed when the operation validates its
/// accounts.
pub open spec fn withdraw_amount(a: WithdrawAccounts, amount: u64, use_max_amount: bool) -> u64 {
    if use_max_amount {
        a.user_wrapper_token_account.token_state().amount
    } else {
        amount
    }
}

/// What a withdrawal credits to the user's underlying holding: the released
/// amount less any fee the underlying mint withholds from the destination
/// credit. Custody is still debited by the full amount.
pub open spec fn withdraw_credited(a: WithdrawAccounts, amount: u64, use_max_amount: bool) -> int {
    credited_for(
        a.token_2022_mint.mint_state().transfer_fee,
        withdraw_amount(a, amount, use_max_amount),
    )
}

/// Every check a withdrawal runs, as one conjunction.
pub open spec fn withdraw_accepted(
    program_id: Address,
    a: WithdrawAccounts,
    amount: u64,
    use_max_amount: bool,
) -> bool {
    let actual = withdraw_amount(a, amount, use_max_amount);
    let credited = withdraw_credited(a, amount, use_max_amount);
    &&& a.user_authority.is_signer
    &&& wrapper_token_mint_ok(a.token_2022_mint.key, program_id, a.wrapper_token_mint, true)
    &&& reserve_authority_ok(a.token_2022_mint.key, program_id, a.reserve_authority)
    &&& reserve_token_account_ok(
        a.token_2022_mint.key,
        a.reserve_authority.key,
        program_id,
        a.reserve_token_account,
        true,
    )
    &&& a.token_program.key.bytes@ == token_program_id_bytes()
    &&& a.token_2022_program.key.bytes@ == token_2022_program_id_bytes()
    &&& a.system_program.key.bytes@ == system_program_id_bytes()
    &&& a.rent_sysvar.key.bytes@ == rent_sysvar_id_bytes()
    &&& mint_ok(a.token_2022_mint, true)
    &&& mint_ok(a.wrapper_token_mint, false)
    &&& token_account_ok(
        a.user_token_2022_token_account,
        a.user_authority.key,
        a.token_2022_mint.key,
        true,
    )
    &&& token_account_ok(
        a.user_wrapper_token_account,
        a.user_authority.key,
        a.wrapper_token_mint.key,
        false,
    )
    &&& token_account_ok(
        a.reserve_token_account,
        a.reserve_authority.key,
        a.token_2022_mint.key,
        true,
    )
    &&& a.wrapper_token_mint.mint_state().decimals == a.token_2022_mint.mint_state().decimals
    &&& !a.user_wrapper_token_account.token_state().is_frozen
    &&& actual <= a.user_wrapper_token_account.token_state().amount
    &&& actual <= a.wrapper_token_mint.mint_state().supply
    &&& !a.reserve_token_account.token_state().is_frozen
    &&& !a.user_token_2022_token_account.token_state().is_frozen
    &&& actual <= a.reserve_token_account.token_state().amount
    &&& a.user_token_2022_token_account.token_state().amount + credited <= u64::MAX
}

/// The first failure a withdrawal hits, in the order the checks run; `None`
/// exactly when the operation is accepted.
pub open spec fn withdraw_check(
    program_id: Address,
    a: WithdrawAccounts,
    amount: u64,
    use_max_amount: bool,
) -> Option<VaultError> {
    let actual = withdraw_amount(a, amount, use_max_amount);
    let credited = withdraw_credited(a, amount, use_max_amount);
    if !a.user_authority.is_signer {
        Option::Some(VaultError::Wrapper(TokenWrapperError::MissingSigner))
    } else if !wrapper_token_mint_ok(a.token_2022_mint.key, program_id, a.wrapper_token_mint, true) {
        Option::Some(VaultError::Wrapper(TokenWrapperError::UnexpectedWrapperToken))
    } else if !reserve_authority_ok(a.token_2022_mint.key, program_id, a.reserve_authority) {
        Option::Some(VaultError::Wrapper(TokenWrapperError::UnexpectedReserveAuthority))
    } else if !reserve_token_account_ok(
        a.token_2022_mint.key,
        a.reserve_authority.key,
        program_id,
        a.reserve_token_account,
        true,
    ) {
        Option::Some(VaultError::Wrapper(TokenWrapperError::UnexpectedReserveTokenAccount))
    } else if a.token_program.key.bytes@ != token_program_id_bytes() {
        Option::Some(VaultError::Wrapper(TokenWrapperError::UnexpectedTokenProgram))
    } else if a.token_2022_program.key.bytes@ != token_2022_program_id_bytes() {
        Option::Some(VaultError::Wrapper(TokenWrapperError::UnexpectedTokenProgram))
    } else if a.system_program.key.bytes@ != system_program_id_bytes() {
        Option::Some(VaultError::Wrapper(TokenWrapperError::UnexpectedTokenProgram))
    } else if a.rent_sysvar.key.bytes@ != rent_sysvar_id_bytes() {
        Option::Some(VaultError::Wrapper(TokenWrapperError::UnexpectedRent))
    } else if !(a.token_2022_mint.contents is Mint) {
        Option::Some(VaultError::InvalidAccountData)
    } else if !mint_ok(a.token_2022_mint, true) {
        Option::Some(VaultError::Wrapper(TokenWrapperError::InvalidTokenMint))
    } else if !(a.wrapper_token_mint.contents is Mint) {
        Option::Some(VaultError::InvalidAccountData)
    } else if !mint_ok(a.wrapper_token_mint, false) {
        Option::Some(VaultError::Wrapper(TokenWrapperError::InvalidTokenMint))
    } else if !(a.user_token_2022_token_account.contents is Token) {
        Option::Some(VaultError::InvalidAccountData)
    } else if !token_account_ok(
        a.user_token_2022_token_account,
        a.user_authority.key,
        a.token_2022_mint.key,
        true,
    ) {
        Option::Some(VaultError::Wrapper(TokenWrapperError::InvalidTokenAccount))
    } else if !(a.user_wrapper_token_account.contents is Token) {
        Option::Some(VaultError::InvalidAccountData)
    } else if !token_account_ok(
        a.user_wrapper_token_account,
        a.user_authority.key,
        a.wrapper_token_mint.key,
        false,
    ) {
        Option::Some(VaultError::Wrapper(TokenWrapperError::InvalidTokenAccount))
    } else if !(a.reserve_token_account.contents is Token) {
        Option::Some(VaultError::InvalidAccountData)
    } else if !token_account_ok(
        a.reserve_token_account,
        a.reserve_authority.key,
        a.token_2022_mint.key,
        true,
    ) {
        Option::Some(VaultError::Wrapper(TokenWrapperError::InvalidTokenAccount))
    } else if a.wrapper_token_mint.mint_state().decimals
        != a.token_2022_mint.mint_state().decimals {
        Option::Some(VaultError::Upstream(UpstreamError::DecimalsMismatch))
    } else if a.user_wrapper_token_account.token_state().is_frozen {
        Option::Some(VaultError::Upstream(UpstreamError::AccountFrozen))
    } else if actual > a.user_wrapper_token_account.token_state().amount {
        Option::Some(VaultError::Upstream(UpstreamError::InsufficientFunds))
    } else if actual > a.wrapper_token_mint.mint_state().supply {
        Option::Some(VaultError::Upstream(UpstreamError::SupplyUnderflow))
    } else if a.reserve_token_account.token_state().is_frozen
        || a.user_token_2022_token_account.token_state().is_frozen {
        Option::Some(VaultError::Upstream(UpstreamError::AccountFrozen))
    } else if actual > a.reserve_token_account.token_state().amount {
        Option::Some(VaultError::Upstream(UpstreamError::InsufficientFunds))
    } else if a.user_token_2022_token_account.token_state().amount + credited > u64::MAX {
        Option::Some(VaultError::Upstream(UpstreamError::Overflow))
    } else {
        Option::None
    }
}

/// The committed state of an accepted withdrawal: the user's wrapper holding
/// and the wrapper supply shrink by the burned amount, custody is debited by
/// the same amount, and the user's underlying holding is credited with that
/// amount less any withheld fee.
pub open spec fn withdraw_apply(
    a: WithdrawAccounts,
    amount: u64,
    use_max_amount: bool,
) -> WithdrawAccounts {
    let actual = withdraw_amount(a, amount, use_max_amount);
    let credited = withdraw_credited(a, amount, use_max_amount);
    WithdrawAccounts {
        user_wrapper_token_account: Account {
            contents: AccountContents::Token(
                TokenAccountState {
                    amount: (a.user_wrapper_token_account.token_state().amount - actual) as u64,
                    ..a.user_wrapper_token_account.token_state()
                },
            ),
            ..a.user_wrapper_token_account
        },
        wrapper_token_mint: Account {
            contents: AccountContents::Mint(
                MintState {
                    supply: (a.wrapper_token_mint.mint_state().supply - actual) as u64,
                    ..a.wrapper_token_mint.mint_state()
                },
            ),
            ..a.wrapper_token_mint
        },
        reserve_token_account: Account {
            contents: AccountContents::Token(
                TokenAccountState {
                    amount: (a.reserve_token_account.token_state().amount - actual) as u64,
                    ..a.reserve_token_account.token_state()
                },
            ),
            ..a.reserve_token_account
        },
        user_token_2022_token_account: Account {
            contents: AccountContents::Token(
                TokenAccountState {
                    amount: (a.user_token_2022_token_account.token_state().amount + credited)
                        as u64,
                    ..a.user_token_2022_token_account.token_state()
                },
            ),
            ..a.user_token_2022_token_account
        },
        ..a
    }
}

/// Burns wrapper units from the user and releases the same number of
/// underlying units from custody to the user. No delta measurement is
/// needed: custody is debited exactly the burned amount whatever fee the
/// recipient's credit bears, so custody stays equal to the wrapper supply.
#[verifier::rlimit(60)]
pub fn process_withdraw_and_burn_wrapper_tokens(
    program_id: Address,
    accounts: &mut WithdrawAccounts,
    amount: u64,
    use_max_amount: bool,
) -> (r: Result<(), VaultError>)
    ensures
        (r is Ok) == withdraw_accepted(program_id, *old(accounts), amount, use_max_amount),
        r matches Err(e) ==> {
            &&& Option::Some(e) == withdraw_check(program_id, *old(accounts), amount, use_max_amount)
            &&& *final(accounts) == *old(accounts)
        },
        r is Ok ==> *final(accounts) == withdraw_apply(*old(accounts), amount, use_max_amount),
{
    let mut work = *accounts;

    match assert_with_msg(
        work.user_authority.is_signer,
        TokenWrapperError::MissingSigner,
        "The user authority needs to be a signer",
    ) {
        Ok(()) => {},
        Err(e) => { return Err(VaultError::Wrapper(e)) },
    }
    match assert_wrapper_token_mint(
        work.token_2022_mint.key,
        program_id,
        &work.wrapper_token_mint,
        true,
    ) {
        Ok(()) => {},
        Err(e) => { return Err(VaultError::Wrapper(e)) },
    }
    match assert_reserve_authority(work.token_2022_mint.key, program_id, &work.reserve_authority) {
        Ok(()) => {},
        Err(e) => { return Err(VaultError::Wrapper(e)) },
    }
    match assert_reserve_authority_token_account(
        work.token_2022_mint.key,
        work.reserve_authority.key,
        program_id,
        &work.reserve_token_account,
        true,
    ) {
        Ok(()) => {},
        Err(e) => { return Err(VaultError::Wrapper(e)) },
    }
    match assert_token_program(work.token_program.key) {
        Ok(()) => {},
        Err(e) => { return Err(VaultError::Wrapper(e)) },
    }
    match assert_token_2022_program(work.token_2022_program.key) {
        Ok(()) => {},
        Err(e) => { return Err(VaultError::Wrapper(e)) },
    }
    match assert_system_program(work.system_program.key) {
        Ok(()) => {},
        Err(e) => { return Err(VaultError::Wrapper(e)) },
    }
    match assert_rent(work.rent_sysvar.key) {
        Ok(()) => {},
        Err(e) => { return Err(VaultError::Wrapper(e)) },
    }

    match validate_mint(&work.token_2022_mint, true) {
        Ok(()) => {},
        Err(e) => { return Err(e) },
    }
    match validate_mint(&work.wrapper_token_mint, false) {
        Ok(()) => {},
        Err(e) => { return Err(e) },
    }
    match validate_token_account(
        &work.user_token_2022_token_account,
        work.user_authority.key,
        work.token_2022_mint.key,
        true,
    ) {
        Ok(()) => {},
        Err(e) => { return Err(e) },
    }
    match validate_token_account(
        &work.user_wrapper_token_account,
        work.user_authority.key,
        work.wrapper_token_mint.key,
        false,
    ) {
        Ok(()) => {},
        Err(e) => { return Err(e) },
    }
    match validate_token_account(
        &work.reserve_token_account,
        work.reserve_authority.key,
        work.token_2022_mint.key,
        true,
    ) {
        Ok(()) => {},
        Err(e) => { return Err(e) },
    }

    let token_2022_decimals = match work.token_2022_mint.contents {
        AccountContents::Mint(m) => m.decimals,
        _ => { return Err(VaultError::InvalidAccountData) },
    };

    let actual_amount = if use_max_amount {
        match work.user_wrapper_token_account.contents {
            AccountContents::Token(t) => t.amount,
            _ => { return Err(VaultError::InvalidAccountData) },
        }
    } else {
        amount
    };

    match burn_checked(
        token_program_id(),
        &mut work.user_wrapper_token_account,
        &mut work.wrapper_token_mint,
        work.user_authority.key,
        actual_amount,
        token_2022_decimals,
    ) {
        Ok(()) => {},
        Err(e) => { return Err(e) },
    }

    match transfer_checked(
        token_2022_program_id(),
        &mut work.reserve_token_account,
        &work.token_2022_mint,
        &mut work.user_token_2022_token_account,
        work.reserve_authority.key,
        actual_amount,
        token_2022_decimals,
    ) {
        Ok(()) => {},
        Err(e) => { return Err(e) },
    }

    *accounts = work;
    Ok(())
}

/// The initialize account list read positionally from the supplied accounts.
pub open spec fn initialize_ctx(s: Seq<Account>) -> InitializeAccounts {
    InitializeAccounts {
        payer: s[0],
        token_2022_mint: s[1],
        wrapper_token_mint: s[2],
        reserve_authority: s[3],
        reserve_token_account: s[4],
        token_program: s[5],
        token_2022_program: s[6],
        system_program: s[7],
        rent_sysvar: s[8],
    }
}

/// The deposit account list read positionally from the supplied accounts.
pub open spec fn deposit_ctx(s: Seq<Account>) -> DepositAccounts {
    DepositAccounts {
        user_authority: s[0],
        reserve_authority: s[1],
        token_2022_mint: s[2],
        wrapper_token_mint: s[3],
        user_wrapper_token_account: s[4],
        user_token_2022_token_account: s[5],
        reserve_token_account: s[6],
        token_program: s[7],
        token_2022_program: s[8],
        system_program: s[9],
        associated_token_program: s[10],
        rent_sysvar: s[11],
    }
}

/// The withdraw account list read positionally from the supplied accounts.
pub open spec fn withdraw_ctx(s: Seq<Account>) -> WithdrawAccounts {
    WithdrawAccounts {
        user_authority: s[0],
        reserve_authority: s[1],
        token_2022_mint: s[2],
        wrapper_token_mint: s[3],
        user_wrapper_token_account: s[4],
        user_token_2022_token_account: s[5],
        reserve_token_account: s[6],
        token_program: s[7],
        token_2022_program: s[8],
        system_program: s[9],
        rent_sysvar: s[10],
    }
}

/// The account list after a committed initialize: the wrapper mint and the
/// custody account carry their new state, every other position is untouched.
pub open spec fn initialize_write_back(s: Seq<Account>, c: InitializeAccounts) -> Seq<Account> {
    s.update(2, c.wrapper_token_mint).update(4, c.reserve_token_account)
}

/// The account list after a committed deposit: the wrapper mint, the two
/// user holdings and the custody account carry their new state.
pub open spec fn deposit_write_back(s: Seq<Account>, c: DepositAccounts) -> Seq<Account> {
    s.update(3, c.wrapper_token_mint).update(4, c.user_wrapper_token_account).update(
        5,
        c.user_token_2022_token_account,
    ).update(6, c.reserve_token_account)
}

/// The account list after a committed withdrawal: the wrapper mint, the two
/// user holdings and the custody account carry their new state.
pub open spec fn withdraw_write_back(s: Seq<Account>, c: WithdrawAccounts) -> Seq<Account> {
    s.update(3, c.wrapper_token_mint).update(4, c.user_wrapper_token_account).update(
        5,
        c.user_token_2022_token_account,
    ).update(6, c.reserve_token_account)
}

/// Dispatches an instruction payload against a positional account list: byte
/// 0 selects the operation, bytes 1 to 8 carry the amount for deposit and
/// withdraw, and the optional ninth byte carries the use-maximum flag (any
/// non-zero value means true; absent means false).
#[verifier::rlimit(60)]
pub fn process_instruction(
    program_id: Address,
    accounts: &mut Vec<Account>,
    instruction_data: &[u8],
) -> (r: Result<(), VaultError>)
    ensures
        ({
            let d = instruction_data@;
            let s = old(accounts)@;
            if d.len() < 1 || d[0] > 2 {
                &&& r == Err::<(), VaultError>(VaultError::InvalidInstructionData)
                &&& final(accounts)@ == s
            } else if d[0] == 0 {
                if s.len() < 9 {
                    &&& r == Err::<(), VaultError>(VaultError::NotEnoughAccountKeys)
                    &&& final(accounts)@ == s
                } else {
                    let c = initialize_ctx(s);
                    if initialize_accepted(program_id, c) {
                        &&& r == Ok::<(), VaultError>(())
                        &&& final(accounts)@ == initialize_write_back(s, initialize_apply(c))
                    } else {
                        &&& r is Err
                        &&& Option::Some(r->Err_0) == initialize_check(program_id, c)
                        &&& final(accounts)@ == s
                    }
                }
            } else if d.len() < 9 {
                &&& r == Err::<(), VaultError>(VaultError::InvalidInstructionData)
                &&& final(accounts)@ == s
            } else {
                let amount = vstd::bytes::spec_u64_from_le_bytes(d.subrange(1, 9));
                let flag = d.len() >= 10 && d[9] != 0;
                if d[0] == 1 {
                    if s.len() < 12 {
                        &&& r == Err::<(), VaultError>(VaultError::NotEnoughAccountKeys)
                        &&& final(accounts)@ == s
                    } else {
                        let c = deposit_ctx(s);
                        if deposit_accepted(program_id, c, amount, flag) {
                            &&& r == Ok::<(), VaultError>(())
                            &&& final(accounts)@ == deposit_write_back(
                                s,
                                deposit_apply(c, amount, flag),
                            )
                        } else {
                            &&& r is Err
                            &&& Option::Some(r->Err_0) == deposit_check(program_id, c, amount, flag)
                            &&& final(accounts)@ == s
                        }
                    }
                } else {
                    if s.len() < 11 {
                        &&& r == Err::<(), VaultError>(VaultError::NotEnoughAccountKeys)
                        &&& final(accounts)@ == s
                    } else {
                        let c = withdraw_ctx(s);
                        if withdraw_accepted(program_id, c, amount, flag) {
                            &&& r == Ok::<(), VaultError>(())
                            &&& final(accounts)@ == withdraw_write_back(
                                s,
                                withdraw_apply(c, amount, flag),
                            )
                        } else {
                            &&& r is Err
                            &&& Option::Some(r->Err_0) == withdraw_check(
                                program_id,
                                c,
                                amount,
                                flag,
                            )
                            &&& final(accounts)@ == s
                        }
                    }
                }
            }
        }),
{
    let instruction = match TokenWrapperInstruction::unpack(instruction_data) {
        Ok(i) => i,
        Err(e) => { return Err(e) },
    };
    let data = vstd::slice::slice_subrange(instruction_data, 1, instruction_data.len());

    match instruction {
        TokenWrapperInstruction::InitializeWrapperToken => {
            if accounts.len() < 9 {
                return Err(VaultError::NotEnoughAccountKeys);
            }
            let mut ctx = InitializeAccounts {
                payer: accounts[0],
                token_2022_mint: accounts[1],
                wrapper_token_mint: accounts[2],
                reserve_authority: accounts[3],
                reserve_token_account: accounts[4],
                token_program: accounts[5],
                token_2022_program: accounts[6],
                system_program: accounts[7],
                rent_sysvar: accounts[8],
            };
            match process_initialize_wrapper_token(program_id, &mut ctx) {
                Ok(()) => {
                    accounts[2] = ctx.wrapper_token_mint;
                    accounts[4] = ctx.reserve_token_account;
                    proof {
                        assert(accounts@ =~= initialize_write_back(
                            old(accounts)@,
                            initialize_apply(initialize_ctx(old(accounts)@)),
                        ));
                    }
                    Ok(())
                },
                Err(e) => Err(e),
            }
        },
        TokenWrapperInstruction::DepositAndMintWrapperTokens => {
            let (amount, rest) = match TokenWrapperInstruction::unpack_u64(data) {
                Ok(t) => t,
                Err(e) => { return Err(e) },
            };
            let use_max_amount = rest.len() >= 1 && *vstd::slice::slice_index_get(rest, 0) != 0;
            proof {
                assert(data@.subrange(0, 8) =~= instruction_data@.subrange(1, 9));
            }
            if accounts.len() < 12 {
                return Err(VaultError::NotEnoughAccountKeys);
            }
            let mut ctx = DepositAccounts {
                user_authority: accounts[0],
                reserve_authority: accounts[1],
                token_2022_mint: accounts[2],
                wrapper_token_mint: accounts[3],
                user_wrapper_token_account: accounts[4],
                user_token_2022_token_account: accounts[5],
                reserve_token_account: accounts[6],
                token_program: accounts[7],
                token_2022_program: accounts[8],
                system_program: accounts[9],
                associated_token_program: accounts[10],
                rent_sysvar: accounts[11],
            };
            match process_deposit_and_mint_wrapper_tokens(
                program_id,
                &mut ctx,
                amount,
                use_max_amount,
            ) {
                Ok(()) => {
                    accounts[3] = ctx.wrapper_token_mint;
                    accounts[4] = ctx.user_wrapper_token_account;
                    accounts[5] = ctx.user_token_2022_token_account;
                    accounts[6] = ctx.reserve_token_account;
                    proof {
                        assert(accounts@ =~= deposit_write_back(
                            old(accounts)@,
                            deposit_apply(
                                deposit_ctx(old(accounts)@),
                                amount,
                                use_max_amount,
                            ),
                        ));
                    }
                    Ok(())
                },
                Err(e) => Err(e),
            }
        },
        TokenWrapperInstruction::WithdrawAndBurnWrapperTokens => {
            let (amount, rest) = match TokenWrapperInstruction::unpack_u64(data) {
                Ok(t) => t,
                Err(e) => { return Err(e) },
            };
            let use_max_amount = rest.len() >= 1 && *vstd::slice::slice_index_get(rest, 0) != 0;
            proof {
                assert(data@.subrange(0, 8) =~= instruction_data@.subrange(1, 9));
            }
            if accounts.len() < 11 {
                return Err(VaultError::NotEnoughAccountKeys);
            }
            let mut ctx = WithdrawAccounts {
                user_authority: accounts[0],
                reserve_authority: accounts[1],
                token_2022_mint: accounts[2],
                wrapper_token_mint: accounts[3],
                user_wrapper_token_account: accounts[4],
                user_token_2022_token_account: accounts[5],
                reserve_token_account: accounts[6],
                token_program: accounts[7],
                token_2022_program: accounts[8],
                system_program: accounts[9],
                rent_sysvar: accounts[10],
            };
            match process_withdraw_and_burn_wrapper_tokens(
                program_id,
                &mut ctx,
                amount,
                use_max_amount,
            ) {
                Ok(()) => {
                    accounts[3] = ctx.wrapper_token_mint;
                    accounts[4] = ctx.user_wrapper_token_account;
                    accounts[5] = ctx.user_token_2022_token_account;
                    accounts[6] = ctx.reserve_token_account;
                    proof {
                        assert(accounts@ =~= withdraw_write_back(
                            old(accounts)@,
                            withdraw_apply(
                                withdraw_ctx(old(accounts)@),
                                amount,
                                use_max_amount,
                            ),
                        ));
                    }
                    Ok(())
                },
                Err(e) => Err(e),
            }
        },
    }
}

} // verus!
