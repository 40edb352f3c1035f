//! The token programs' primitives at their interface.
//!
//! The vault never reimplements the asset programs: it invokes their
//! create-account, initialize-mint, initialize-account, transfer, mint and
//! burn primitives and relies on what they promise at their interface. This
//! module states that interface over the plain-value account model, including
//! the fee-on-transfer rule: a fee is withheld from the destination credit of
//! a transfer, never from the source debit.

use vstd::prelude::*;

use crate::addr::{address_eq, Address};
use crate::error::{TokenWrapperError, UpstreamError, VaultError};
use crate::ids::{system_program_id, system_program_id_bytes};
use crate::state::{Account, AccountContents, MintState, TokenAccountState, TransferFee};

verus! {

/// The fee withheld from the destination credit of a transfer of `amount`
/// units: the stated basis points of the amount, rounded down, capped by the
/// policy's maximum fee and by the amount itself.
pub open spec fn fee_for(fee: Option<TransferFee>, amount: u64) -> int {
    match fee {
        Option::None => 0,
        Option::Some(f) => {
            let raw = (amount as int) * (f.basis_points as int) / 10000;
            let capped = if raw > f.maximum_fee as int {
                f.maximum_fee as int
            } else {
                raw
            };
            if capped > amount as int {
                amount as int
            } else {
                capped
            }
        },
    }
}

/// What a transfer of `amount` credits to the destination: the amount less
/// the withheld fee.
pub open spec fn credited_for(fee: Option<TransferFee>, amount: u64) -> int {
    amount - fee_for(fee, amount)
}

/// The withheld fee lies between zero and the transferred amount.
pub proof fn lemma_fee_bounds(fee: Option<TransferFee>, amount: u64)
    ensures
        0 <= fee_for(fee, amount) <= amount,
        0 <= credited_for(fee, amount) <= amount,
{
    match fee {
        Option::None => {},
        Option::Some(f) => {
            vstd::arithmetic::mul::lemma_mul_nonnegative(amount as int, f.basis_points as int);
            vstd::arithmetic::div_mod::lemma_div_is_ordered(
                0,
                (amount as int) * (f.basis_points as int),
                10000,
            );
        },
    }
}

/// Computes the withheld fee of a transfer.
pub fn transfer_fee_amount(fee: &Option<TransferFee>, amount: u64) -> (f: u64)
    ensures
        f as int == fee_for(*fee, amount),
{
    match fee {
        Option::None => 0,
        Option::Some(policy) => {
            proof {
                vstd::arithmetic::mul::lemma_mul_upper_bound(
                    amount as int,
                    u64::MAX as int,
                    policy.basis_points as int,
                    u16::MAX as int,
                );
            }
            let raw: u128 = (amount as u128) * (policy.basis_points as u128) / 10000;
            let capped: u128 = if raw > policy.maximum_fee as u128 {
                policy.maximum_fee as u128
            } else {
                raw
            };
            let bounded: u128 = if capped > amount as u128 {
                amount as u128
            } else {
                capped
            };
            bounded as u64
        },
    }
}

/// The first rejection a checked transfer of `amount` units hits, if any:
/// malformed records, a mint mismatch, a decimals mismatch, a frozen holding,
/// a wrong authority, missing funds, or a destination balance overflow.
pub open spec fn transfer_check(
    token_program: Address,
    src: Account,
    mint: Account,
    dst: Account,
    authority: Address,
    amount: u64,
    decimals: u8,
) -> Option<VaultError> {
    if !(src.owner.bytes@ == token_program.bytes@ && src.contents is Token) {
        Option::Some(VaultError::InvalidAccountData)
    } else if !(mint.owner.bytes@ == token_program.bytes@ && mint.contents is Mint
        && mint.mint_state().is_initialized) {
        Option::Some(VaultError::Upstream(UpstreamError::UninitializedMint))
    } else if !(dst.owner.bytes@ == token_program.bytes@ && dst.contents is Token) {
        Option::Some(VaultError::InvalidAccountData)
    } else if src.token_state().mint.bytes@ != mint.key.bytes@ || dst.token_state().mint.bytes@
        != mint.key.bytes@ {
        Option::Some(VaultError::Upstream(UpstreamError::MintMismatch))
    } else if decimals != mint.mint_state().decimals {
        Option::Some(VaultError::Upstream(UpstreamError::DecimalsMismatch))
    } else if src.token_state().is_frozen || dst.token_state().is_frozen {
        Option::Some(VaultError::Upstream(UpstreamError::AccountFrozen))
    } else if authority.bytes@ != src.token_state().owner.bytes@ {
        Option::Some(VaultError::Upstream(UpstreamError::OwnerMismatch))
    } else if amount > src.token_state().amount {
        Option::Some(VaultError::Upstream(UpstreamError::InsufficientFunds))
    } else if dst.token_state().amount + credited_for(mint.mint_state().transfer_fee, amount)
        > u64::MAX {
        Option::Some(VaultError::Upstream(UpstreamError::Overflow))
    } else {
        Option::None
    }
}

/// Transfers `amount` units of `mint` from `src` to `dst` under the given
/// authority, debiting the source by the full amount and crediting the
/// destination with the amount less any withheld fee.
pub fn transfer_checked(
    token_program: Address,
    src: &mut Account,
    mint: &Account,
    dst: &mut Account,
    authority: Address,
    amount: u64,
    decimals: u8,
) -> (r: Result<(), VaultError>)
    ensures
        (r is Ok) == (transfer_check(
            token_program,
            *old(src),
            *mint,
            *old(dst),
            authority,
            amount,
            decimals,
        ) is None),
        r matches Err(e) ==> {
            &&& Option::Some(e) == transfer_check(
                token_program,
                *old(src),
                *mint,
                *old(dst),
                authority,
                amount,
                decimals,
            )
            &&& *final(src) == *old(src)
            &&& *final(dst) == *old(dst)
        },
        r is Ok ==> {
            &&& *final(src) == (Account {
                contents: AccountContents::Token(
                    TokenAccountState {
                        amount: (old(src).token_state().amount - amount) as u64,
                        ..old(src).token_state()
                    },
                ),
                ..*old(src)
            })
            &&& *final(dst) == (Account {
                contents: AccountContents::Token(
                    TokenAccountState {
                        amount: (old(dst).token_state().amount + credited_for(
                            mint.mint_state().transfer_fee,
                            amount,
                        )) as u64,
                        ..old(dst).token_state()
                    },
                ),
                ..*old(dst)
            })
        },
{
    let src_tok = match src.contents {
        AccountContents::Token(t) => t,
        _ => { return Err(VaultError::InvalidAccountData) },
    };
    if !address_eq(&src.owner, &token_program) {
        return Err(VaultError::InvalidAccountData);
    }
    let mint_rec = match mint.contents {
        AccountContents::Mint(m) => m,
        _ => { return Err(VaultError::Upstream(UpstreamError::UninitializedMint)) },
    };
    if !address_eq(&mint.owner, &token_program) || !mint_rec.is_initialized {
        return Err(VaultError::Upstream(UpstreamError::UninitializedMint));
    }
    let dst_tok = match dst.contents {
        AccountContents::Token(t) => t,
        _ => { return Err(VaultError::InvalidAccountData) },
    };
    if !address_eq(&dst.owner, &token_program) {
        return Err(VaultError::InvalidAccountData);
    }
    if !address_eq(&src_tok.mint, &mint.key) || !address_eq(&dst_tok.mint, &mint.key) {
        return Err(VaultError::Upstream(UpstreamError::MintMismatch));
    }
    if decimals != mint_rec.decimals {
        return Err(VaultError::Upstream(UpstreamError::DecimalsMismatch));
    }
    if src_tok.is_frozen || dst_tok.is_frozen {
        return Err(VaultError::Upstream(UpstreamError::AccountFrozen));
    }
    if !address_eq(&authority, &src_tok.owner) {
        return Err(VaultError::Upstream(UpstreamError::OwnerMismatch));
    }
    if amount > src_tok.amount {
        return Err(VaultError::Upstream(UpstreamError::InsufficientFunds));
    }
    let fee = transfer_fee_amount(&mint_rec.transfer_fee, amount);
    proof {
        lemma_fee_bounds(mint_rec.transfer_fee, amount);
    }
    let credited = amount - fee;
    if dst_tok.amount > u64::MAX - credited {
        return Err(VaultError::Upstream(UpstreamError::Overflow));
    }
    src.contents = AccountContents::Token(
        TokenAccountState { amount: src_tok.amount - amount, ..src_tok },
    );
    dst.contents = AccountContents::Token(
        TokenAccountState { amount: dst_tok.amount + credited, ..dst_tok },
    );
    Ok(())
}

/// The first rejection a checked mint of `amount` new units hits, if any.
pub open spec fn mint_to_check(
    token_program: Address,
    mint: Account,
    dst: Account,
    authority: Address,
    amount: u64,
    decimals: u8,
) -> Option<VaultError> {
    if !(mint.owner.bytes@ == token_program.bytes@ && mint.contents is Mint
        && mint.mint_state().is_initialized) {
        Option::Some(VaultError::Upstream(UpstreamError::UninitializedMint))
    } else if !(dst.owner.bytes@ == token_program.bytes@ && dst.contents is Token) {
        Option::Some(VaultError::InvalidAccountData)
    } else if dst.token_state().mint.bytes@ != mint.key.bytes@ {
        Option::Some(VaultError::Upstream(UpstreamError::MintMismatch))
    } else if decimals != mint.mint_state().decimals {
        Option::Some(VaultError::Upstream(UpstreamError::DecimalsMismatch))
    } else if dst.token_state().is_frozen {
        Option::Some(VaultError::Upstream(UpstreamError::AccountFrozen))
    } else if !(mint.mint_state().mint_authority matches Some(a) && a.bytes@ == authority.bytes@) {
        Option::Some(VaultError::Upstream(UpstreamError::OwnerMismatch))
    } else if mint.mint_state().supply + amount > u64::MAX || dst.token_state().amount + amount
        > u64::MAX {
        Option::Some(VaultError::Upstream(UpstreamError::Overflow))
    } else {
        Option::None
    }
}

/// Mints `amount` new units of `mint` to `dst` under the mint authority,
/// raising the supply and the destination balance by the same amount.
pub fn mint_to_checked(
    token_program: Address,
    mint: &mut Account,
    dst: &mut Account,
    authority: Address,
    amount: u64,
    decimals: u8,
) -> (r: Result<(), VaultError>)
    ensures
        (r is Ok) == (mint_to_check(
            token_program,
            *old(mint),
            *old(dst),
            authority,
            amount,
            decimals,
        ) is None),
        r matches Err(e) ==> {
            &&& Option::Some(e) == mint_to_check(
                token_program,
                *old(mint),
                *old(dst),
                authority,
                amount,
                decimals,
            )
            &&& *final(mint) == *old(mint)
            &&& *final(dst) == *old(dst)
        },
        r is Ok ==> {
            &&& *final(mint) == (Account {
                contents: AccountContents::Mint(
                    MintState {
                        supply: (old(mint).mint_state().supply + amount) as u64,
                        ..old(mint).mint_state()
                    },
                ),
                ..*old(mint)
            })
            &&& *final(dst) == (Account {
                contents: AccountContents::Token(
                    TokenAccountState {
                        amount: (old(dst).token_state().amount + amount) as u64,
                        ..old(dst).token_state()
                    },
                ),
                ..*old(dst)
            })
        },
{
    let mint_rec = match mint.contents {
        AccountContents::Mint(m) => m,
        _ => { return Err(VaultError::Upstream(UpstreamError::UninitializedMint)) },
    };
    if !address_eq(&mint.owner, &token_program) || !mint_rec.is_initialized {
        return Err(VaultError::Upstream(UpstreamError::UninitializedMint));
    }
    let dst_tok = match dst.contents {
        AccountContents::Token(t) => t,
        _ => { return Err(VaultError::InvalidAccountData) },
    };
    if !address_eq(&dst.owner, &token_program) {
        return Err(VaultError::InvalidAccountData);
    }
    if !address_eq(&dst_tok.mint, &mint.key) {
        return Err(VaultError::Upstream(UpstreamError::MintMismatch));
    }
    if decimals != mint_rec.decimals {
        return Err(VaultError::Upstream(UpstreamError::DecimalsMismatch));
    }
    if dst_tok.is_frozen {
        return Err(VaultError::Upstream(UpstreamError::AccountFrozen));
    }
    let authorized = match &mint_rec.mint_authority {
        Option::Some(a) => address_eq(a, &authority),
        Option::None => false,
    };
    if !authorized {
        return Err(VaultError::Upstream(UpstreamError::OwnerMismatch));
    }
    if mint_rec.supply > u64::MAX - amount || dst_tok.amount > u64::MAX - amount {
        return Err(VaultError::Upstream(UpstreamError::Overflow));
    }
    mint.contents = AccountContents::Mint(
        MintState { supply: mint_rec.supply + amount, ..mint_rec },
    );
    dst.contents = AccountContents::Token(
        TokenAccountState { amount: dst_tok.amount + amount, ..dst_tok },
    );
    Ok(())
}

/// The first rejection a checked burn of `amount` units hits, if any.
pub open spec fn burn_check(
    token_program: Address,
    src: Account,
    mint: Account,
    authority: Address,
    amount: u64,
    decimals: u8,
) -> Option<VaultError> {
    if !(src.owner.bytes@ == token_program.bytes@ && src.contents is Token) {
        Option::Some(VaultError::InvalidAccountData)
    } else if !(mint.owner.bytes@ == token_program.bytes@ && mint.contents is Mint
        && mint.mint_state().is_initialized) {
        Option::Some(VaultError::Upstream(UpstreamError::UninitializedMint))
    } else if src.token_state().mint.bytes@ != mint.key.bytes@ {
        Option::Some(VaultError::Upstream(UpstreamError::MintMismatch))
    } else if decimals != mint.mint_state().decimals {
        Option::Some(VaultError::Upstream(UpstreamError::DecimalsMismatch))
    } else if src.token_state().is_frozen {
        Option::Some(VaultError::Upstream(UpstreamError::AccountFrozen))
    } else if authority.bytes@ != src.token_state().owner.bytes@ {
        Option::Some(VaultError::Upstream(UpstreamError::OwnerMismatch))
    } else if amount > src.token_state().amount {
        Option::Some(VaultError::Upstream(UpstreamError::InsufficientFunds))
    } else if amount > mint.mint_state().supply {
        Option::Some(VaultError::Upstream(UpstreamError::SupplyUnderflow))
    } else {
        Option::None
    }
}

/// Burns `amount` units held by `src` under the holder's authority, lowering
/// the balance and the supply by the same amount.
pub fn burn_checked(
    token_program: Address,
    src: &mut Account,
    mint: &mut Account,
    authority: Address,
    amount: u64,
    decimals: u8,
) -> (r: Result<(), VaultError>)
    ensures
        (r is Ok) == (burn_check(
            token_program,
            *old(src),
            *old(mint),
            authority,
            amount,
            decimals,
        ) is None),
        r matches Err(e) ==> {
            &&& Option::Some(e) == burn_check(
                token_program,
                *old(src),
                *old(mint),
                authority,
                amount,
                decimals,
            )
            &&& *final(src) == *old(src)
            &&& *final(mint) == *old(mint)
        },
        r is Ok ==> {
            &&& *final(src) == (Account {
                contents: AccountContents::Token(
                    TokenAccountState {
                        amount: (old(src).token_state().amount - amount) as u64,
                        ..old(src).token_state()
                    },
                ),
                ..*old(src)
            })
            &&& *final(mint) == (Account {
                contents: AccountContents::Mint(
                    MintState {
                        supply: (old(mint).mint_state().supply - amount) as u64,
                        ..old(mint).mint_state()
                    },
                ),
                ..*old(mint)
            })
        },
{
    let src_tok = match src.contents {
        AccountContents::Token(t) => t,
        _ => { return Err(VaultError::InvalidAccountData) },
    };
    if !address_eq(&src.owner, &token_program) {
        return Err(VaultError::InvalidAccountData);
    }
    let mint_rec = match mint.contents {
        AccountContents::Mint(m) => m,
        _ => { return Err(VaultError::Upstream(UpstreamError::UninitializedMint)) },
    };
    if !address_eq(&mint.owner, &token_program) || !mint_rec.is_initialized {
        return Err(VaultError::Upstream(UpstreamError::UninitializedMint));
    }
    if !address_eq(&src_tok.mint, &mint.key) {
        return Err(VaultError::Upstream(UpstreamError::MintMismatch));
    }
    if decimals != mint_rec.decimals {
        return Err(VaultError::Upstream(UpstreamError::DecimalsMismatch));
    }
    if src_tok.is_frozen {
        return Err(VaultError::Upstream(UpstreamError::AccountFrozen));
    }
    if !address_eq(&authority, &src_tok.owner) {
        return Err(VaultError::Upstream(UpstreamError::OwnerMismatch));
    }
    if amount > src_tok.amount {
        return Err(VaultError::Upstream(UpstreamError::InsufficientFunds));
    }
    if amount > mint_rec.supply {
        return Err(VaultError::Upstream(UpstreamError::SupplyUnderflow));
    }
    src.contents = AccountContents::Token(
        TokenAccountState { amount: src_tok.amount - amount, ..src_tok },
    );
    mint.contents = AccountContents::Mint(
        MintState { supply: mint_rec.supply - amount, ..mint_rec },
    );
    Ok(())
}

/// The first rejection a funded account creation hits, if any: the payer must
/// sign and the target must still be an untouched system-owned account.
pub open spec fn create_account_check(payer: Account, target: Account) -> Option<VaultError> {
    if !payer.is_signer {
        Option::Some(VaultError::Wrapper(TokenWrapperError::MissingSigner))
    } else if !(target.owner.bytes@ == system_program_id_bytes() && target.contents is Empty) {
        Option::Some(VaultError::Upstream(UpstreamError::AlreadyInUse))
    } else {
        Option::None
    }
}

/// Creates the target account at its derived address: funds it from the
/// payer and hands ownership to `new_owner`. The derivation proof of the
/// target's seeds authorizes the creation in place of a private-key
/// signature.
pub fn create_account(payer: &Account, target: &mut Account, new_owner: Address) -> (r: Result<
    (),
    VaultError,
>)
    ensures
        (r is Ok) == (create_account_check(*payer, *old(target)) is None),
        r matches Err(e) ==> {
            &&& Option::Some(e) == create_account_check(*payer, *old(target))
            &&& *final(target) == *old(target)
        },
        r is Ok ==> *final(target) == (Account { owner: new_owner, ..*old(target) }),
{
    if !payer.is_signer {
        return Err(VaultError::Wrapper(TokenWrapperError::MissingSigner));
    }
    let system_id = system_program_id();
    let empty = match target.contents {
        AccountContents::Empty => true,
        _ => false,
    };
    if !address_eq(&target.owner, &system_id) || !empty {
        return Err(VaultError::Upstream(UpstreamError::AlreadyInUse));
    }
    target.owner = new_owner;
    Ok(())
}

/// The first rejection of a mint initialization, if any.
pub open spec fn initialize_mint_check(token_program: Address, mint_acct: Account) -> Option<
    VaultError,
> {
    if mint_acct.owner.bytes@ != token_program.bytes@ {
        Option::Some(VaultError::InvalidAccountData)
    } else if !(mint_acct.contents is Empty) {
        Option::Some(VaultError::Upstream(UpstreamError::AlreadyInUse))
    } else {
        Option::None
    }
}

/// Writes a fresh mint record with zero supply into an account the token
/// program has just taken ownership of.
pub fn initialize_mint(
    token_program: Address,
    mint_acct: &mut Account,
    decimals: u8,
    mint_authority: Address,
    freeze_authority: Option<Address>,
) -> (r: Result<(), VaultError>)
    ensures
        (r is Ok) == (initialize_mint_check(token_program, *old(mint_acct)) is None),
        r matches Err(e) ==> {
            &&& Option::Some(e) == initialize_mint_check(token_program, *old(mint_acct))
            &&& *final(mint_acct) == *old(mint_acct)
        },
        r is Ok ==> *final(mint_acct) == (Account {
            contents: AccountContents::Mint(
                MintState {
                    mint_authority: Option::Some(mint_authority),
                    freeze_authority,
                    decimals,
                    supply: 0,
                    is_initialized: true,
                    transfer_fee: Option::None,
                },
            ),
            ..*old(mint_acct)
        }),
{
    if !address_eq(&mint_acct.owner, &token_program) {
        return Err(VaultError::InvalidAccountData);
    }
    match mint_acct.contents {
        AccountContents::Empty => {},
        _ => { return Err(VaultError::Upstream(UpstreamError::AlreadyInUse)) },
    }
    mint_acct.contents = AccountContents::Mint(
        MintState {
            mint_authority: Option::Some(mint_authority),
            freeze_authority,
            decimals,
            supply: 0,
            is_initialized: true,
            transfer_fee: Option::None,
        },
    );
    Ok(())
}

/// The first rejection of a token-account initialization, if any.
pub open spec fn initialize_account_check(
    token_program: Address,
    acct: Account,
    mint: Account,
) -> Option<VaultError> {
    if acct.owner.bytes@ != token_program.bytes@ {
        Option::Some(VaultError::InvalidAccountData)
    } else if !(acct.contents is Empty) {
        Option::Some(VaultError::Upstream(UpstreamError::AlreadyInUse))
    } else if !(mint.owner.bytes@ == token_program.bytes@ && mint.contents is Mint
        && mint.mint_state().is_initialized) {
        Option::Some(VaultError::Upstream(UpstreamError::UninitializedMint))
    } else {
        Option::None
    }
}

/// Writes a fresh holding record for `mint`, owned by `owner`, into an
/// account the token program has just taken ownership of.
pub fn initialize_account(
    token_program: Address,
    acct: &mut Account,
    mint: &Account,
    owner: Address,
) -> (r: Result<(), VaultError>)
    ensures
        (r is Ok) == (initialize_account_check(token_program, *old(acct), *mint) is None),
        r matches Err(e) ==> {
            &&& Option::Some(e) == initialize_account_check(token_program, *old(acct), *mint)
            &&& *final(acct) == *old(acct)
        },
        r is Ok ==> *final(acct) == (Account {
            contents: AccountContents::Token(
                TokenAccountState { mint: mint.key, owner, amount: 0, is_frozen: false },
            ),
            ..*old(acct)
        }),
{
    if !address_eq(&acct.owner, &token_program) {
        return Err(VaultError::InvalidAccountData);
    }
    match acct.contents {
        AccountContents::Empty => {},
        _ => { return Err(VaultError::Upstream(UpstreamError::AlreadyInUse)) },
    }
    let mint_ok = match mint.contents {
        AccountContents::Mint(m) => m.is_initialized,
        _ => false,
    };
    if !address_eq(&mint.owner, &token_program) || !mint_ok {
        return Err(VaultError::Upstream(UpstreamError::UninitializedMint));
    }
    acct.contents = AccountContents::Token(
        TokenAccountState { mint: mint.key, owner, amount: 0, is_frozen: false },
    );
    Ok(())
}

/// The first rejection of a derived-holding-account creation, if any: the
/// funding wallet must sign, the supplied account must sit at the expected
/// derived address, still be untouched, and the mint must be live under the
/// named token program.
pub open spec fn create_associated_token_account_check(
    payer: Account,
    acct: Account,
    mint: Account,
    token_program: Address,
    expected: Address,
) -> Option<VaultError> {
    if !payer.is_signer {
        Option::Some(VaultError::Wrapper(TokenWrapperError::MissingSigner))
    } else if acct.key.bytes@ != expected.bytes@ {
        Option::Some(VaultError::Upstream(UpstreamError::InvalidSeeds))
    } else if !(acct.owner.bytes@ == system_program_id_bytes() && acct.contents is Empty) {
        Option::Some(VaultError::Upstream(UpstreamError::AlreadyInUse))
    } else if !(mint.owner.bytes@ == token_program.bytes@ && mint.contents is Mint
        && mint.mint_state().is_initialized) {
        Option::Some(VaultError::Upstream(UpstreamError::UninitializedMint))
    } else {
        Option::None
    }
}

/// Creates the wallet's derived holding account for `mint` under
/// `token_program`, funded by the wallet itself. `expected` is the derived
/// address the account must sit at.
pub fn create_associated_token_account(
    payer: &Account,
    acct: &mut Account,
    wallet: Address,
    mint: &Account,
    token_program: Address,
    expected: Address,
) -> (r: Result<(), VaultError>)
    ensures
        (r is Ok) == (create_associated_token_account_check(
            *payer,
            *old(acct),
            *mint,
            token_program,
            expected,
        ) is None),
        r matches Err(e) ==> {
            &&& Option::Some(e) == create_associated_token_account_check(
                *payer,
                *old(acct),
                *mint,
                token_program,
                expected,
            )
            &&& *final(acct) == *old(acct)
        },
        r is Ok ==> *final(acct) == (Account {
            owner: token_program,
            contents: AccountContents::Token(
                TokenAccountState { mint: mint.key, owner: wallet, amount: 0, is_frozen: false },
            ),
            ..*old(acct)
        }),
{
    if !payer.is_signer {
        return Err(VaultError::Wrapper(TokenWrapperError::MissingSigner));
    }
    if !address_eq(&acct.key, &expected) {
        return Err(VaultError::Upstream(UpstreamError::InvalidSeeds));
    }
    let system_id = system_program_id();
    let empty = match acct.contents {
        AccountContents::Empty => true,
        _ => false,
    };
    if !address_eq(&acct.owner, &system_id) || !empty {
        return Err(VaultError::Upstream(UpstreamError::AlreadyInUse));
    }
    let mint_ok = match mint.contents {
        AccountContents::Mint(m) => m.is_initialized,
        _ => false,
    };
    if !address_eq(&mint.owner, &token_program) || !mint_ok {
        return Err(VaultError::Upstream(UpstreamError::UninitializedMint));
    }
    acct.owner = token_program;
    acct.contents = AccountContents::Token(
        TokenAccountState { mint: mint.key, owner: wallet, amount: 0, is_frozen: false },
    );
    Ok(())
}

} // verus!
