//! A reserve-backed token wrapper: holders of a restricted-format fungible
//! token obtain a freely compatible wrapper token pegged one to one, redeemable
//! at any time. The wrapper supply stays fully collateralized by units held in
//! a program-controlled reserve account.
//!
//! The crate models the on-chain accounts as plain values and verifies the
//! three vault operations (initialize, deposit-and-mint, withdraw-and-burn)
//! together with the address derivations and account validators they rely on.

pub mod addr;
pub mod error;
pub mod ids;
pub mod instruction;
pub mod laws;
pub mod pda;
pub mod processor;
pub mod state;
pub mod token;
pub mod validate;
