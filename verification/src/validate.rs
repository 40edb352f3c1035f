//! Account validators.
//!
//! Every operation re-derives the addresses it needs and holds each
//! caller-supplied account against them: its address, its owning program for
//! the claimed lifecycle stage, and, for mints and holdings, the record's own
//! fields. Each validator is a predicate returning the distinct error of its
//! relationship; the first failure aborts the whole operation.

use vstd::prelude::*;

use crate::addr::{address_eq, Address};
use crate::error::{TokenWrapperError, VaultError};
use crate::ids::{
    associated_token_program_id, associated_token_program_id_bytes, rent_sysvar_id,
    rent_sysvar_id_bytes, system_program_id, system_program_id_bytes, token_2022_program_id,
    token_2022_program_id_bytes, token_program_id, token_program_id_bytes,
};
use crate::pda::{
    get_reserve_authority, get_reserve_authority_token_account, get_wrapper_token_mint,
    reserve_authority_pda, reserve_token_account_pda, wrapper_mint_pda,
};
use crate::state::{Account, AccountContents};

verus! {

/// Returns `Ok` exactly when `v` holds, and the given error otherwise. The
/// message documents the check for a human reader; it does not affect the
/// result.
pub fn assert_with_msg(v: bool, err: TokenWrapperError, msg: &str) -> (r: Result<
    (),
    TokenWrapperError,
>)
    ensures
        (r is Ok) == v,
        r matches Err(e) ==> e == err,
{
    if v {
        let _ = msg;
        Ok(())
    } else {
        Err(err)
    }
}

/// The supplied wrapper mint sits at its derived address and is at the
/// claimed lifecycle stage: owned by the token program once initialized, by
/// the system program before.
pub open spec fn wrapper_token_mint_ok(
    token_2022_mint: Address,
    program_id: Address,
    actual: Account,
    is_initialized: bool,
) -> bool {
    &&& actual.key.bytes@ == wrapper_mint_pda(token_2022_mint.bytes@, program_id.bytes@).0
    &&& actual.owner.bytes@ == (if is_initialized {
        token_program_id_bytes()
    } else {
        system_program_id_bytes()
    })
}

/// The supplied reserve authority sits at its derived address.
pub open spec fn reserve_authority_ok(
    token_2022_mint: Address,
    program_id: Address,
    actual: Account,
) -> bool {
    actual.key.bytes@ == reserve_authority_pda(token_2022_mint.bytes@, program_id.bytes@).0
}

/// The supplied custody account sits at its derived address and is at the
/// claimed lifecycle stage: owned by the fee-capable token program once
/// initialized, by the system program before.
pub open spec fn reserve_token_account_ok(
    token_2022_mint: Address,
    owner: Address,
    program_id: Address,
    actual: Account,
    is_initialized: bool,
) -> bool {
    &&& actual.key.bytes@ == reserve_token_account_pda(
        token_2022_mint.bytes@,
        owner.bytes@,
        program_id.bytes@,
    ).0
    &&& actual.owner.bytes@ == (if is_initialized {
        token_2022_program_id_bytes()
    } else {
        system_program_id_bytes()
    })
}

/// The supplied account parses as a holding record whose owner and mint
/// match, under the expected token program.
pub open spec fn token_account_ok(
    acct: Account,
    expected_owner: Address,
    expected_mint: Address,
    is_token_2022: bool,
) -> bool {
    &&& acct.contents is Token
    &&& acct.token_state().owner.bytes@ == expected_owner.bytes@
    &&& acct.owner.bytes@ == (if is_token_2022 {
        token_2022_program_id_bytes()
    } else {
        token_program_id_bytes()
    })
    &&& acct.token_state().mint.bytes@ == expected_mint.bytes@
}

/// The supplied account parses as an initialized mint record under the
/// expected token program.
pub open spec fn mint_ok(acct: Account, is_token_2022: bool) -> bool {
    &&& acct.contents is Mint
    &&& acct.mint_state().is_initialized
    &&& acct.owner.bytes@ == (if is_token_2022 {
        token_2022_program_id_bytes()
    } else {
        token_program_id_bytes()
    })
}

/// Accepts exactly the token program's address.
pub fn assert_token_program(p: Address) -> (r: Result<(), TokenWrapperError>)
    ensures
        (r is Ok) == (p.bytes@ == token_program_id_bytes()),
        r matches Err(e) ==> e == TokenWrapperError::UnexpectedTokenProgram,
{
    assert_with_msg(
        address_eq(&p, &token_program_id()),
        TokenWrapperError::UnexpectedTokenProgram,
        "Invalid Token program pubkey passed",
    )
}

/// Accepts exactly the derived-holding-account program's address.
pub fn assert_associated_token_program(p: Address) -> (r: Result<(), TokenWrapperError>)
    ensures
        (r is Ok) == (p.bytes@ == associated_token_program_id_bytes()),
        r matches Err(e) ==> e == TokenWrapperError::UnexpectedTokenProgram,
{
    assert_with_msg(
        address_eq(&p, &associated_token_program_id()),
        TokenWrapperError::UnexpectedTokenProgram,
        "Invalid Token program pubkey passed",
    )
}

/// Accepts exactly the fee-capable token program's address.
pub fn assert_token_2022_program(p: Address) -> (r: Result<(), TokenWrapperError>)
    ensures
        (r is Ok) == (p.bytes@ == token_2022_program_id_bytes()),
        r matches Err(e) ==> e == TokenWrapperError::UnexpectedTokenProgram,
{
    assert_with_msg(
        address_eq(&p, &token_2022_program_id()),
        TokenWrapperError::UnexpectedTokenProgram,
        "Invalid Token 2022 program pubkey passed",
    )
}

/// Accepts exactly the system program's address.
pub fn assert_system_program(p: Address) -> (r: Result<(), TokenWrapperError>)
    ensures
        (r is Ok) == (p.bytes@ == system_program_id_bytes()),
        r matches Err(e) ==> e == TokenWrapperError::UnexpectedTokenProgram,
{
    assert_with_msg(
        address_eq(&p, &system_program_id()),
        TokenWrapperError::UnexpectedTokenProgram,
        "Invalid System program pubkey passed",
    )
}

/// Accepts exactly the rent sysvar's address.
pub fn assert_rent(p: Address) -> (r: Result<(), TokenWrapperError>)
    ensures
        (r is Ok) == (p.bytes@ == rent_sysvar_id_bytes()),
        r matches Err(e) ==> e == TokenWrapperError::UnexpectedRent,
{
    assert_with_msg(
        address_eq(&p, &rent_sysvar_id()),
        TokenWrapperError::UnexpectedRent,
        "Invalid Rent pubkey passed",
    )
}

/// Holds the supplied wrapper mint against its re-derived address and its
/// claimed lifecycle stage.
pub fn assert_wrapper_token_mint(
    token_2022_mint: Address,
    program_id: Address,
    actual_wrapper_token_mint: &Account,
    is_initialized: bool,
) -> (r: Result<(), TokenWrapperError>)
    ensures
        (r is Ok) == wrapper_token_mint_ok(
            token_2022_mint,
            program_id,
            *actual_wrapper_token_mint,
            is_initialized,
        ),
        r matches Err(e) ==> e == TokenWrapperError::UnexpectedWrapperToken,
{
    let (expected_wrapper_token_mint, _, _) = get_wrapper_token_mint(token_2022_mint, program_id);
    let expected_program_owner = if is_initialized {
        token_program_id()
    } else {
        system_program_id()
    };
    assert_with_msg(
        address_eq(&expected_wrapper_token_mint, &actual_wrapper_token_mint.key) && address_eq(
            &actual_wrapper_token_mint.owner,
            &expected_program_owner,
        ),
        TokenWrapperError::UnexpectedWrapperToken,
        "Invalid wrapper token mint passed",
    )
}

/// Holds the supplied reserve authority against its re-derived address.
pub fn assert_reserve_authority(
    token_2022_mint: Address,
    program_id: Address,
    actual_reserve_authority: &Account,
) -> (r: Result<(), TokenWrapperError>)
    ensures
        (r is Ok) == reserve_authority_ok(token_2022_mint, program_id, *actual_reserve_authority),
        r matches Err(e) ==> e == TokenWrapperError::UnexpectedReserveAuthority,
{
    let (expected_reserve_authority, _, _) = get_reserve_authority(token_2022_mint, program_id);
    assert_with_msg(
        address_eq(&expected_reserve_authority, &actual_reserve_authority.key),
        TokenWrapperError::UnexpectedReserveAuthority,
        "Invalid reserve authority passed",
    )
}

/// Holds the supplied custody account against its re-derived address and its
/// claimed lifecycle stage.
pub fn assert_reserve_authority_token_account(
    token_2022_mint: Address,
    owner: Address,
    program_id: Address,
    actual_reserve_authority_token_account: &Account,
    is_initialized: bool,
) -> (r: Result<(), TokenWrapperError>)
    ensures
        (r is Ok) == reserve_token_account_ok(
            token_2022_mint,
            owner,
            program_id,
            *actual_reserve_authority_token_account,
            is_initialized,
        ),
        r matches Err(e) ==> e == TokenWrapperError::UnexpectedReserveTokenAccount,
{
    let (expected_reserve_authority_token_account, _, _) = get_reserve_authority_token_account(
        token_2022_mint,
        owner,
        program_id,
    );
    let expected_program_owner = if is_initialized {
        token_2022_program_id()
    } else {
        system_program_id()
    };
    assert_with_msg(
        address_eq(
            &expected_reserve_authority_token_account,
            &actual_reserve_authority_token_account.key,
        ) && address_eq(
            &actual_reserve_authority_token_account.owner,
            &expected_program_owner,
        ),
        TokenWrapperError::UnexpectedReserveTokenAccount,
        "Invalid reserve authority token account passed",
    )
}

/// Unpacks the supplied account as a holding record and holds its owner,
/// mint and owning program against the expected parties.
pub fn validate_token_account(
    token_account_info: &Account,
    expected_owner: Address,
    expected_mint: Address,
    is_token_2022: bool,
) -> (r: Result<(), VaultError>)
    ensures
        (r is Ok) == token_account_ok(
            *token_account_info,
            expected_owner,
            expected_mint,
            is_token_2022,
        ),
        r matches Err(e) ==> e == (if !(token_account_info.contents is Token) {
            VaultError::InvalidAccountData
        } else {
            VaultError::Wrapper(TokenWrapperError::InvalidTokenAccount)
        }),
{
    let token_account = match token_account_info.contents {
        AccountContents::Token(t) => t,
        _ => { return Err(VaultError::InvalidAccountData) },
    };
    let expected_program_owner = if is_token_2022 {
        token_2022_program_id()
    } else {
        token_program_id()
    };
    match assert_with_msg(
        address_eq(&token_account.owner, &expected_owner) && address_eq(
            &token_account_info.owner,
            &expected_program_owner,
        ) && address_eq(&token_account.mint, &expected_mint),
        TokenWrapperError::InvalidTokenAccount,
        "Incorrect token account",
    ) {
        Ok(()) => Ok(()),
        Err(e) => Err(VaultError::Wrapper(e)),
    }
}

/// Unpacks the supplied account as a mint record and holds its
/// initialization flag and owning program against the expected stage.
pub fn validate_mint(token_mint_info: &Account, is_token_2022: bool) -> (r: Result<
    (),
    VaultError,
>)
    ensures
        (r is Ok) == mint_ok(*token_mint_info, is_token_2022),
        r matches Err(e) ==> e == (if !(token_mint_info.contents is Mint) {
            VaultError::InvalidAccountData
        } else {
            VaultError::Wrapper(TokenWrapperError::InvalidTokenMint)
        }),
{
    let token_mint = match token_mint_info.contents {
        AccountContents::Mint(m) => m,
        _ => { return Err(VaultError::InvalidAccountData) },
    };
    let expected_program_owner = if is_token_2022 {
        token_2022_program_id()
    } else {
        token_program_id()
    };
    match assert_with_msg(
        token_mint.is_initialized && address_eq(&token_mint_info.owner, &expected_program_owner),
        TokenWrapperError::InvalidTokenMint,
        "Incorrect token mint",
    ) {
        Ok(()) => Ok(()),
        Err(e) => Err(VaultError::Wrapper(e)),
    }
}

} // verus!
