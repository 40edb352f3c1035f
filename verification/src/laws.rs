//! The stated guarantees of the vault, proved over the operation contracts.
//!
//! Each proof function here is a public statement of the library: what holds
//! of every committed operation sequence, of repeated initialization, of a
//! deposit followed by a withdrawal, of the fee-adjusted minted amount, and
//! of operations handed accounts that fail ownership or derivation checks.
//! Together with the engine contracts — an operation either commits to
//! exactly the applied state or returns its first failure with no effect —
//! these carry over to every execution.

use vstd::prelude::*;

use crate::addr::Address;
use crate::error::{TokenWrapperError, VaultError};
use crate::pda::wrapper_mint_pda;
use crate::processor::{
    deposit_accepted, deposit_amount, deposit_apply, deposit_check, deposit_created_user_wrapper,
    initialize_accepted, initialize_apply, initialize_check, withdraw_accepted, withdraw_amount,
    withdraw_apply, withdraw_check, DepositAccounts, InitializeAccounts, WithdrawAccounts,
};
use crate::state::Account;
use crate::token::lemma_fee_bounds;

verus! {

/// The core invariant: the custody balance equals the wrapper supply, so
/// every wrapper unit in circulation is backed by one underlying unit held
/// in reserve.
pub open spec fn vault_collateralized(
    reserve_token_account: Account,
    wrapper_token_mint: Account,
) -> bool
    recommends
        reserve_token_account.contents is Token,
        wrapper_token_mint.contents is Mint,
{
    reserve_token_account.token_state().amount == wrapper_token_mint.mint_state().supply
}

/// A committed initialize establishes the invariant: the fresh custody
/// account and the fresh wrapper mint both start at zero.
pub proof fn lemma_initialize_establishes_collateralization(
    program_id: Address,
    a: InitializeAccounts,
)
    requires
        initialize_accepted(program_id, a),
    ensures
        vault_collateralized(
            initialize_apply(a).reserve_token_account,
            initialize_apply(a).wrapper_token_mint,
        ),
{
}

/// A committed deposit preserves the invariant: custody and supply grow by
/// the same credited amount, whatever fee the underlying mint withheld.
pub proof fn lemma_deposit_preserves_collateralization(
    program_id: Address,
    a: DepositAccounts,
    amount: u64,
    use_max_amount: bool,
)
    requires
        deposit_accepted(program_id, a, amount, use_max_amount),
        vault_collateralized(a.reserve_token_account, a.wrapper_token_mint),
    ensures
        vault_collateralized(
            deposit_apply(a, amount, use_max_amount).reserve_token_account,
            deposit_apply(a, amount, use_max_amount).wrapper_token_mint,
        ),
{
    lemma_fee_bounds(
        a.token_2022_mint.mint_state().transfer_fee,
        deposit_amount(a, amount, use_max_amount),
    );
}

/// A committed withdrawal preserves the invariant: custody and supply shrink
/// by the same burned amount, whatever fee the user's credit bears.
pub proof fn lemma_withdraw_preserves_collateralization(
    program_id: Address,
    a: WithdrawAccounts,
    amount: u64,
    use_max_amount: bool,
)
    requires
        withdraw_accepted(program_id, a, amount, use_max_amount),
        vault_collateralized(a.reserve_token_account, a.wrapper_token_mint),
    ensures
        vault_collateralized(
            withdraw_apply(a, amount, use_max_amount).reserve_token_account,
            withdraw_apply(a, amount, use_max_amount).wrapper_token_mint,
        ),
{
}

/// One committed deposit or withdrawal, with the account list it ran against.
pub enum CommittedOperation {
    Deposit { accounts: DepositAccounts, amount: u64, use_max_amount: bool },
    Withdraw { accounts: WithdrawAccounts, amount: u64, use_max_amount: bool },
}

/// Whether the operation's checks all passed.
pub open spec fn step_accepted(program_id: Address, op: CommittedOperation) -> bool {
    match op {
        CommittedOperation::Deposit { accounts, amount, use_max_amount } => deposit_accepted(
            program_id,
            accounts,
            amount,
            use_max_amount,
        ),
        CommittedOperation::Withdraw { accounts, amount, use_max_amount } => withdraw_accepted(
            program_id,
            accounts,
            amount,
            use_max_amount,
        ),
    }
}

/// The vault pair (custody account, wrapper mint) the operation started from.
pub open spec fn step_vault_before(op: CommittedOperation) -> (Account, Account) {
    match op {
        CommittedOperation::Deposit { accounts, .. } => (
            accounts.reserve_token_account,
            accounts.wrapper_token_mint,
        ),
        CommittedOperation::Withdraw { accounts, .. } => (
            accounts.reserve_token_account,
            accounts.wrapper_token_mint,
        ),
    }
}

/// The vault pair (custody account, wrapper mint) the operation committed.
pub open spec fn step_vault_after(op: CommittedOperation) -> (Account, Account) {
    match op {
        CommittedOperation::Deposit { accounts, amount, use_max_amount } => {
            let post = deposit_apply(accounts, amount, use_max_amount);
            (post.reserve_token_account, post.wrapper_token_mint)
        },
        CommittedOperation::Withdraw { accounts, amount, use_max_amount } => {
            let post = withdraw_apply(accounts, amount, use_max_amount);
            (post.reserve_token_account, post.wrapper_token_mint)
        },
    }
}

/// The operations run back to back on one vault: the first starts from the
/// given pair, and each next one starts from what its predecessor committed.
pub open spec fn steps_chained(steps: Seq<CommittedOperation>, initial: (Account, Account)) -> bool {
    &&& (steps.len() > 0 ==> step_vault_before(steps[0]) == initial)
    &&& forall|i: int|
        0 < i < steps.len() ==> step_vault_before(#[trigger] steps[i]) == step_vault_after(
            steps[i - 1],
        )
}

/// Every operation in the sequence passed all its checks.
pub open spec fn steps_accepted(program_id: Address, steps: Seq<CommittedOperation>) -> bool {
    forall|i: int| 0 <= i < steps.len() ==> step_accepted(program_id, #[trigger] steps[i])
}

/// Collateralization invariant: over any sequence of committed deposits and
/// withdrawals on one vault, starting from a collateralized state (as a
/// fresh initialize commits one), the custody balance equals the wrapper
/// supply after every commit.
pub proof fn lemma_collateralization_invariant(
    program_id: Address,
    steps: Seq<CommittedOperation>,
    initial: (Account, Account),
)
    requires
        vault_collateralized(initial.0, initial.1),
        steps_chained(steps, initial),
        steps_accepted(program_id, steps),
    ensures
        forall|i: int|
            0 <= i < steps.len() ==> vault_collateralized(
                (#[trigger] step_vault_after(steps[i])).0,
                step_vault_after(steps[i]).1,
            ),
    decreases steps.len(),
{
    if steps.len() > 0 {
        let prefix = steps.drop_last();
        assert(steps_chained(prefix, initial));
        assert(steps_accepted(program_id, prefix));
        lemma_collateralization_invariant(program_id, prefix, initial);
        let last = steps.last();
        let pre = step_vault_before(last);
        assert(vault_collateralized(pre.0, pre.1)) by {
            if steps.len() == 1 {
            } else {
                assert(pre == step_vault_after(prefix[steps.len() - 2]));
            }
        }
        match last {
            CommittedOperation::Deposit { accounts, amount, use_max_amount } => {
                lemma_deposit_preserves_collateralization(
                    program_id,
                    accounts,
                    amount,
                    use_max_amount,
                );
            },
            CommittedOperation::Withdraw { accounts, amount, use_max_amount } => {
                lemma_withdraw_preserves_collateralization(
                    program_id,
                    accounts,
                    amount,
                    use_max_amount,
                );
            },
        }
        assert forall|i: int| 0 <= i < steps.len() implies vault_collateralized(
            (#[trigger] step_vault_after(steps[i])).0,
            step_vault_after(steps[i]).1,
        ) by {
            if i < steps.len() - 1 {
                assert(steps[i] == prefix[i]);
            } else {
                assert(steps[i] == last);
            }
        }
    }
}

/// Idempotent initialization: after a committed initialize, a second
/// initialize for the same underlying mint is rejected at the lifecycle
/// check of the wrapper mint — it is no longer system-owned — and, by the
/// operation's contract, a rejected initialize changes nothing.
pub proof fn lemma_second_initialize_rejected(
    program_id: Address,
    first: InitializeAccounts,
    second: InitializeAccounts,
)
    requires
        initialize_accepted(program_id, first),
        second.payer.is_signer,
        second.token_2022_mint.key == first.token_2022_mint.key,
        second.wrapper_token_mint == initialize_apply(first).wrapper_token_mint,
    ensures
        !initialize_accepted(program_id, second),
        initialize_check(program_id, second) == Option::Some(
            VaultError::Wrapper(TokenWrapperError::UnexpectedWrapperToken),
        ),
{
    assert(crate::ids::token_program_id_bytes()[0] == 6);
    assert(crate::ids::system_program_id_bytes()[0] == 0);
}

/// The withdraw account list that carries a deposit's accounts forward
/// unchanged into the following withdrawal.
pub open spec fn withdraw_of_deposit(a: DepositAccounts) -> WithdrawAccounts {
    WithdrawAccounts {
        user_authority: a.user_authority,
        reserve_authority: a.reserve_authority,
        token_2022_mint: a.token_2022_mint,
        wrapper_token_mint: a.wrapper_token_mint,
        user_wrapper_token_account: a.user_wrapper_token_account,
        user_token_2022_token_account: a.user_token_2022_token_account,
        reserve_token_account: a.reserve_token_account,
        token_program: a.token_program,
        token_2022_program: a.token_2022_program,
        system_program: a.system_program,
        rent_sysvar: a.rent_sysvar,
    }
}

/// Round-trip conservation without a fee: a committed deposit of `amount`
/// followed immediately by a withdrawal of `amount` is accepted and returns
/// the user's underlying balance to its pre-deposit value and the user's
/// wrapper balance to what it held before — zero, if it started empty.
pub proof fn lemma_round_trip_conservation(
    program_id: Address,
    a: DepositAccounts,
    amount: u64,
)
    requires
        deposit_accepted(program_id, a, amount, false),
        a.token_2022_mint.mint_state().transfer_fee is None,
    ensures
        withdraw_accepted(program_id, withdraw_of_deposit(deposit_apply(a, amount, false)), amount, false),
        ({
            let after = withdraw_apply(
                withdraw_of_deposit(deposit_apply(a, amount, false)),
                amount,
                false,
            );
            &&& after.user_token_2022_token_account.token_state().amount
                == a.user_token_2022_token_account.token_state().amount
            &&& after.user_wrapper_token_account.token_state().amount
                == deposit_created_user_wrapper(a).token_state().amount
            &&& (deposit_created_user_wrapper(a).token_state().amount == 0
                ==> after.user_wrapper_token_account.token_state().amount == 0)
        }),
{
}

/// Fee-adjusted deposit: against an underlying mint with a basis-point
/// transfer fee, a committed deposit of `amount` mints exactly
/// `amount - min(floor(amount * basis_points / 10000), maximum_fee)`
/// wrapper units, not `amount`.
pub proof fn lemma_fee_adjusted_deposit(
    program_id: Address,
    a: DepositAccounts,
    amount: u64,
    basis_points: u16,
    maximum_fee: u64,
)
    requires
        deposit_accepted(program_id, a, amount, false),
        a.token_2022_mint.mint_state().transfer_fee == Option::Some(
            crate::state::TransferFee { basis_points, maximum_fee },
        ),
        basis_points <= 10000,
    ensures
        ({
            let floor_fee = (amount as int) * (basis_points as int) / 10000;
            let fee = if floor_fee > maximum_fee as int {
                maximum_fee as int
            } else {
                floor_fee
            };
            let post = deposit_apply(a, amount, false);
            &&& post.wrapper_token_mint.mint_state().supply
                == a.wrapper_token_mint.mint_state().supply + amount - fee
            &&& post.user_wrapper_token_account.token_state().amount
                == deposit_created_user_wrapper(a).token_state().amount + amount - fee
        }),
{
    let floor_fee = (amount as int) * (basis_points as int) / 10000;
    vstd::arithmetic::mul::lemma_mul_inequality(basis_points as int, 10000, amount as int);
    vstd::arithmetic::mul::lemma_mul_is_commutative(basis_points as int, amount as int);
    vstd::arithmetic::mul::lemma_mul_is_commutative(10000, amount as int);
    vstd::arithmetic::div_mod::lemma_div_is_ordered(
        (amount as int) * (basis_points as int),
        (amount as int) * 10000,
        10000,
    );
    vstd::arithmetic::div_mod::lemma_div_multiples_vanish(amount as int, 10000);
    assert(floor_fee <= amount as int);
}

/// Ownership rejection at a deposit: a user underlying holding not owned by
/// the signing authority fails the account validation, and when every check
/// before it passes the failure is exactly the ownership-mismatch error. By
/// the operation's contract a rejected deposit changes nothing.
pub proof fn lemma_deposit_ownership_rejection(
    program_id: Address,
    a: DepositAccounts,
    amount: u64,
    use_max_amount: bool,
)
    requires
        a.user_token_2022_token_account.contents is Token,
        a.user_token_2022_token_account.token_state().owner.bytes@
            != a.user_authority.key.bytes@,
    ensures
        !deposit_accepted(program_id, a, amount, use_max_amount),
        deposit_check(program_id, a, amount, use_max_amount) is Some,
{
}

/// The exact failure of an ownership mismatch at a deposit: when every
/// check before the user-holding validation passes and the user's
/// underlying holding is owned by someone other than the signing
/// authority, the operation fails with the ownership-mismatch error of a
/// token account.
pub proof fn lemma_deposit_ownership_error(
    program_id: Address,
    a: DepositAccounts,
    amount: u64,
    use_max_amount: bool,
)
    requires
        a.user_authority.is_signer,
        crate::validate::wrapper_token_mint_ok(
            a.token_2022_mint.key,
            program_id,
            a.wrapper_token_mint,
            true,
        ),
        crate::validate::reserve_authority_ok(
            a.token_2022_mint.key,
            program_id,
            a.reserve_authority,
        ),
        crate::validate::reserve_token_account_ok(
            a.token_2022_mint.key,
            a.reserve_authority.key,
            program_id,
            a.reserve_token_account,
            true,
        ),
        a.token_program.key.bytes@ == crate::ids::token_program_id_bytes(),
        a.token_2022_program.key.bytes@ == crate::ids::token_2022_program_id_bytes(),
        a.system_program.key.bytes@ == crate::ids::system_program_id_bytes(),
        a.rent_sysvar.key.bytes@ == crate::ids::rent_sysvar_id_bytes(),
        !crate::processor::deposit_needs_ata(a),
        crate::validate::mint_ok(a.token_2022_mint, true),
        crate::validate::mint_ok(a.wrapper_token_mint, false),
        a.user_token_2022_token_account.contents is Token,
        a.user_token_2022_token_account.token_state().owner.bytes@
            != a.user_authority.key.bytes@,
    ensures
        deposit_check(program_id, a, amount, use_max_amount) == Option::Some(
            VaultError::Wrapper(TokenWrapperError::InvalidTokenAccount),
        ),
{
}

/// Ownership rejection at a withdrawal, symmetrically: a user wrapper
/// holding not owned by the signing authority is never accepted.
pub proof fn lemma_withdraw_ownership_rejection(
    program_id: Address,
    a: WithdrawAccounts,
    amount: u64,
    use_max_amount: bool,
)
    requires
        a.user_wrapper_token_account.contents is Token,
        a.user_wrapper_token_account.token_state().owner.bytes@ != a.user_authority.key.bytes@,
    ensures
        !withdraw_accepted(program_id, a, amount, use_max_amount),
{
}

/// Cross-vault rejection: a wrapper mint whose address is not the one
/// derived from the named underlying mint fails the very first address
/// check after the signature, with the address-mismatch error of the
/// wrapper mint.
pub proof fn lemma_cross_vault_rejection_wrapper(
    program_id: Address,
    a: DepositAccounts,
    amount: u64,
    use_max_amount: bool,
)
    requires
        a.user_authority.is_signer,
        a.wrapper_token_mint.key.bytes@ != wrapper_mint_pda(
            a.token_2022_mint.key.bytes@,
            program_id.bytes@,
        ).0,
    ensures
        !deposit_accepted(program_id, a, amount, use_max_amount),
        deposit_check(program_id, a, amount, use_max_amount) == Option::Some(
            VaultError::Wrapper(TokenWrapperError::UnexpectedWrapperToken),
        ),
{
}

/// Cross-vault rejection of the custody account: when the wrapper mint and
/// reserve authority check out but the custody account's address is not the
/// one derived from the named underlying mint, the operation fails with the
/// custody account's address-mismatch error.
pub proof fn lemma_cross_vault_rejection_reserve(
    program_id: Address,
    a: DepositAccounts,
    amount: u64,
    use_max_amount: bool,
)
    requires
        a.user_authority.is_signer,
        crate::validate::wrapper_token_mint_ok(
            a.token_2022_mint.key,
            program_id,
            a.wrapper_token_mint,
            true,
        ),
        crate::validate::reserve_authority_ok(
            a.token_2022_mint.key,
            program_id,
            a.reserve_authority,
        ),
        a.reserve_token_account.key.bytes@ != crate::pda::reserve_token_account_pda(
            a.token_2022_mint.key.bytes@,
            a.reserve_authority.key.bytes@,
            program_id.bytes@,
        ).0,
    ensures
        !deposit_accepted(program_id, a, amount, use_max_amount),
        deposit_check(program_id, a, amount, use_max_amount) == Option::Some(
            VaultError::Wrapper(TokenWrapperError::UnexpectedReserveTokenAccount),
        ),
{
}

/// Cross-vault rejection at a withdrawal, symmetrically: a wrapper mint not
/// derived from the named underlying mint fails the first address check
/// after the signature.
pub proof fn lemma_cross_vault_rejection_withdraw(
    program_id: Address,
    a: WithdrawAccounts,
    amount: u64,
    use_max_amount: bool,
)
    requires
        a.user_authority.is_signer,
        a.wrapper_token_mint.key.bytes@ != wrapper_mint_pda(
            a.token_2022_mint.key.bytes@,
            program_id.bytes@,
        ).0,
    ensures
        !withdraw_accepted(program_id, a, amount, use_max_amount),
        withdraw_check(program_id, a, amount, use_max_amount) == Option::Some(
            VaultError::Wrapper(TokenWrapperError::UnexpectedWrapperToken),
        ),
{
}

} // verus!
