//! Plain-value models of the on-chain accounts the vault reads and writes.
//!
//! An account is an address, the program that owns it, a signer flag, and its
//! stored record: nothing, a mint, or a token holding. The execution
//! environment grants no ambient trust, so every operation receives these
//! records from the caller and must validate each one before moving value.

use vstd::prelude::*;

use crate::addr::Address;

verus! {

/// A fee-on-transfer policy of an underlying mint: the fee is withheld from
/// the destination credit of every transfer.
#[derive(Clone, Copy, Debug, PartialEq, Eq)]
pub struct TransferFee {
    /// Fee in basis points of the transferred amount.
    pub basis_points: u16,
    /// Upper bound on the fee withheld from one transfer.
    pub maximum_fee: u64,
}

/// The record of a mint: the identity of one fungible asset.
#[derive(Clone, Copy, Debug, PartialEq, Eq)]
pub struct MintState {
    /// The authority allowed to mint new supply, if any.
    pub mint_authority: Option<Address>,
    /// The authority allowed to freeze holdings, if any.
    pub freeze_authority: Option<Address>,
    /// Number of base-10 digits to the right of the decimal point.
    pub decimals: u8,
    /// Total supply in circulation.
    pub supply: u64,
    /// Whether the record has been initialized.
    pub is_initialized: bool,
    /// The fee-on-transfer policy, if the mint carries one.
    pub transfer_fee: Option<TransferFee>,
}

/// The record of a token holding account: units of one mint held by one owner.
#[derive(Clone, Copy, Debug, PartialEq, Eq)]
pub struct TokenAccountState {
    /// The mint whose units this account holds.
    pub mint: Address,
    /// The authority that may move the held units.
    pub owner: Address,
    /// Units held.
    pub amount: u64,
    /// Whether the holding is frozen by the mint's freeze authority.
    pub is_frozen: bool,
}

/// What an account stores.
#[derive(Clone, Copy, Debug, PartialEq, Eq)]
pub enum AccountContents {
    /// No record: the account has not been initialized by a token program.
    Empty,
    /// A mint record.
    Mint(MintState),
    /// A token holding record.
    Token(TokenAccountState),
}

/// A caller-supplied account reference together with the state it carries.
#[derive(Clone, Copy, Debug, PartialEq, Eq)]
pub struct Account {
    /// The account's address.
    pub key: Address,
    /// The program that owns the account (the system program until a token
    /// program takes ownership at creation).
    pub owner: Address,
    /// Whether the transaction carries this account's signature.
    pub is_signer: bool,
    /// The stored record.
    pub contents: AccountContents,
}

impl Account {
    /// The mint record stored in the account, if any.
    pub open spec fn mint_state(self) -> MintState
        recommends
            self.contents is Mint,
    {
        self.contents->Mint_0
    }

    /// The token holding record stored in the account, if any.
    pub open spec fn token_state(self) -> TokenAccountState
        recommends
            self.contents is Token,
    {
        self.contents->Token_0
    }
}

} // verus!
