//! Error taxonomy of the vault operations.
//!
//! `TokenWrapperError` enumerates the validator failures (address mismatch,
//! ownership mismatch, lifecycle violation, missing signer). `VaultError` is
//! the failure type of a whole operation: a validator failure, malformed
//! instruction bytes, a malformed account record, or a sub-call rejected by
//! a token program. The first failure anywhere aborts the whole operation
//! with no partial effect.

use vstd::prelude::*;

verus! {

/// A validation failure: a caller-supplied account did not match what the
/// operation re-derived or expected.
#[derive(Clone, Copy, Debug, PartialEq, Eq, Structural)]
pub enum TokenWrapperError {
    UnexpectedWrapperToken,
    UnexpectedTokenProgram,
    UnexpectedToken2022Program,
    UnexpectedSystemProgram,
    UnexpectedRent,
    InvalidTokenAccount,
    InvalidTokenMint,
    UnexpectedReserveTokenAccount,
    UnexpectedReserveAuthority,
    MissingSigner,
}

impl TokenWrapperError {
    /// The numeric code surfaced to callers.
    pub open spec fn spec_code(self) -> u32 {
        match self {
            TokenWrapperError::UnexpectedWrapperToken => 0,
            TokenWrapperError::UnexpectedTokenProgram => 1,
            TokenWrapperError::UnexpectedToken2022Program => 2,
            TokenWrapperError::UnexpectedSystemProgram => 3,
            TokenWrapperError::UnexpectedRent => 4,
            TokenWrapperError::InvalidTokenAccount => 5,
            TokenWrapperError::InvalidTokenMint => 6,
            TokenWrapperError::UnexpectedReserveTokenAccount => 7,
            TokenWrapperError::UnexpectedReserveAuthority => 8,
            TokenWrapperError::MissingSigner => 9,
        }
    }

    /// The numeric code surfaced to callers.
    pub fn code(&self) -> (c: u32)
        ensures
            c == self.spec_code(),
    {
        match self {
            TokenWrapperError::UnexpectedWrapperToken => 0,
            TokenWrapperError::UnexpectedTokenProgram => 1,
            TokenWrapperError::UnexpectedToken2022Program => 2,
            TokenWrapperError::UnexpectedSystemProgram => 3,
            TokenWrapperError::UnexpectedRent => 4,
            TokenWrapperError::InvalidTokenAccount => 5,
            TokenWrapperError::InvalidTokenMint => 6,
            TokenWrapperError::UnexpectedReserveTokenAccount => 7,
            TokenWrapperError::UnexpectedReserveAuthority => 8,
            TokenWrapperError::MissingSigner => 9,
        }
    }

    /// A human-readable description of the failure.
    pub fn message(&self) -> &'static str {
        match self {
            TokenWrapperError::UnexpectedWrapperToken => "Unexpected wrapper token mint",
            TokenWrapperError::UnexpectedTokenProgram => "Unexpected SPL Token Program",
            TokenWrapperError::UnexpectedToken2022Program => "Unexpected Token 2022 Program",
            TokenWrapperError::UnexpectedSystemProgram => "Unexpected System Program",
            TokenWrapperError::UnexpectedRent => "Unexpected Rent",
            TokenWrapperError::InvalidTokenAccount => "Invalid token account",
            TokenWrapperError::InvalidTokenMint => "Invalid token mint",
            TokenWrapperError::UnexpectedReserveTokenAccount => "Unexpected reserve token account",
            TokenWrapperError::UnexpectedReserveAuthority => "Unexpected reserve authority",
            TokenWrapperError::MissingSigner => "A required signer did not sign",
        }
    }
}

/// A rejection by one of the invoked token programs. The vault never retries:
/// such a failure propagates verbatim and aborts the whole operation.
#[derive(Clone, Copy, Debug, PartialEq, Eq, Structural)]
pub enum UpstreamError {
    /// A source account holds fewer units than the sub-call would move.
    InsufficientFunds,
    /// The signing authority does not match the account owner or mint authority.
    OwnerMismatch,
    /// A holding account is bound to a different mint than the sub-call names.
    MintMismatch,
    /// The decimals stated in a checked sub-call differ from the mint's.
    DecimalsMismatch,
    /// A holding account is frozen.
    AccountFrozen,
    /// A creation sub-call hit an account that is already in use.
    AlreadyInUse,
    /// The named mint record is not initialized.
    UninitializedMint,
    /// A balance or supply would exceed the representable range.
    Overflow,
    /// The supply would drop below zero.
    SupplyUnderflow,
    /// A derived holding account does not match its seed derivation.
    InvalidSeeds,
}

/// The failure of a whole vault operation.
#[derive(Clone, Copy, Debug, PartialEq, Eq, Structural)]
pub enum VaultError {
    /// A validator rejected a caller-supplied account.
    Wrapper(TokenWrapperError),
    /// The instruction payload is too short or carries an unknown tag.
    InvalidInstructionData,
    /// Fewer accounts were supplied than the operation needs.
    NotEnoughAccountKeys,
    /// An account's stored record does not parse as the claimed layout.
    InvalidAccountData,
    /// A token-program sub-call rejected the operation.
    Upstream(UpstreamError),
}

} // verus!
