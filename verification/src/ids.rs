//! Addresses of the programs and sysvars the vault cooperates with.
//!
//! Each address is stated as a spec constant and obtained at run time from
//! the crate that owns it through a trusted wrapper whose contract pins the
//! returned value to that constant, so every comparison in the validators is
//! held to the real declared address.

use vstd::prelude::*;

use crate::addr::Address;

verus! {

/// The token program that hosts the wrapper mint.
pub open spec fn token_program_address() -> Address {
    Address {
        bytes: [
            6u8, 221, 246, 225, 215, 101, 161, 147, 217, 203, 225, 70, 206, 235, 121, 172, 28,
            180, 133, 237, 95, 91, 55, 145, 58, 140, 245, 133, 126, 255, 0, 169,
        ],
    }
}

/// The fee-capable token program that hosts the underlying mint.
pub open spec fn token_2022_program_address() -> Address {
    Address {
        bytes: [
            6u8, 221, 246, 225, 238, 117, 143, 222, 24, 66, 93, 188, 228, 108, 205, 218, 182, 26,
            252, 77, 131, 185, 13, 39, 254, 189, 249, 40, 216, 161, 139, 252,
        ],
    }
}

/// The program that creates a user's derived holding account.
pub open spec fn associated_token_program_address() -> Address {
    Address {
        bytes: [
            140u8, 151, 37, 143, 78, 36, 137, 241, 187, 61, 16, 41, 20, 142, 13, 131, 11, 90, 19,
            153, 218, 255, 16, 132, 4, 142, 123, 216, 219, 233, 248, 89,
        ],
    }
}

/// The system program, the owner of every account not yet created.
pub open spec fn system_program_address() -> Address {
    Address {
        bytes: [
            0u8, 0, 0, 0, 0, 0, 0, 0, 0, 0, 0, 0, 0, 0, 0, 0, 0, 0, 0, 0, 0, 0, 0, 0, 0, 0, 0, 0,
            0, 0, 0, 0,
        ],
    }
}

/// The rent sysvar account.
pub open spec fn rent_sysvar_address() -> Address {
    Address {
        bytes: [
            6u8, 167, 213, 23, 25, 44, 92, 81, 33, 140, 201, 76, 61, 74, 241, 127, 88, 218, 238,
            8, 155, 161, 253, 68, 227, 219, 217, 138, 0, 0, 0, 0,
        ],
    }
}

/// The token program's address as a byte sequence.
pub open spec fn token_program_id_bytes() -> Seq<u8> {
    token_program_address().bytes@
}

/// The fee-capable token program's address as a byte sequence.
pub open spec fn token_2022_program_id_bytes() -> Seq<u8> {
    token_2022_program_address().bytes@
}

/// The derived-holding-account program's address as a byte sequence.
pub open spec fn associated_token_program_id_bytes() -> Seq<u8> {
    associated_token_program_address().bytes@
}

/// The system program's address as a byte sequence.
pub open spec fn system_program_id_bytes() -> Seq<u8> {
    system_program_address().bytes@
}

/// The rent sysvar's address as a byte sequence.
pub open spec fn rent_sysvar_id_bytes() -> Seq<u8> {
    rent_sysvar_address().bytes@
}

/// Relies on spl_token::id(): the address the spl-token crate declares,
/// TokenkegQfeZyiNwAJbNbGKPFXCWuBvf9Ss623VQ5DA in base-58.
#[verifier::external_body]
pub(crate) fn token_program_id() -> (a: Address)
    ensures
        a == token_program_address(),
{
    Address { bytes: spl_token::id().to_bytes() }
}

/// Relies on spl_token_2022::id(): the address the spl-token-2022 crate
/// declares, TokenzQdBNbLqP5VEhdkAS6EPFLC1PHnBqCXEpPxuEb in base-58.
#[verifier::external_body]
pub(crate) fn token_2022_program_id() -> (a: Address)
    ensures
        a == token_2022_program_address(),
{
    Address { bytes: spl_token_2022::id().to_bytes() }
}

/// Relies on spl_associated_token_account::id(): the address that crate
/// declares, ATokenGPvbdGVxr1b2hvZbsiqW5xWH25efTNsLJA8knL in base-58.
#[verifier::external_body]
pub(crate) fn associated_token_program_id() -> (a: Address)
    ensures
        a == associated_token_program_address(),
{
    Address { bytes: spl_associated_token_account::id().to_bytes() }
}

/// Relies on solana_program::system_program::id(): the all-zero address,
/// 11111111111111111111111111111111 in base-58.
#[verifier::external_body]
pub(crate) fn system_program_id() -> (a: Address)
    ensures
        a == system_program_address(),
{
    Address { bytes: solana_program::system_program::id().to_bytes() }
}

/// Relies on solana_program::sysvar::rent::id(): the address declared for the
/// rent sysvar, SysvarRent111111111111111111111111111111111 in base-58.
#[verifier::external_body]
pub(crate) fn rent_sysvar_id() -> (a: Address)
    ensures
        a == rent_sysvar_address(),
{
    Address { bytes: solana_program::sysvar::rent::id().to_bytes() }
}

} // verus!
