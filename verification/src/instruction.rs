//! The wire format of the three vault operations.
//!
//! Byte 0 of an instruction payload is the operation tag; deposit and
//! withdraw carry a little-endian unsigned 64-bit amount in bytes 1 to 8 and
//! an optional ninth byte that, when non-zero, asks the operation to use the
//! maximum available balance instead of the stated amount.

use vstd::prelude::*;

use crate::error::VaultError;

verus! {

/// The operation requested by an instruction payload.
#[derive(Clone, Copy, Debug, PartialEq, Eq, Structural)]
pub enum TokenWrapperInstruction {
    /// Creates the wrapper mint and the reserve custody account for one
    /// underlying mint. Tag 0; no further payload.
    InitializeWrapperToken,
    /// Moves underlying units into custody and mints the measured custody
    /// increase in wrapper units. Tag 1; payload amount and optional flag.
    DepositAndMintWrapperTokens,
    /// Burns wrapper units and releases the same number of underlying units
    /// from custody. Tag 2; payload amount and optional flag.
    WithdrawAndBurnWrapperTokens,
}

impl TokenWrapperInstruction {
    /// The tag byte of this operation.
    pub open spec fn spec_tag(self) -> u8 {
        match self {
            TokenWrapperInstruction::InitializeWrapperToken => 0,
            TokenWrapperInstruction::DepositAndMintWrapperTokens => 1,
            TokenWrapperInstruction::WithdrawAndBurnWrapperTokens => 2,
        }
    }

    /// The tag byte of this operation.
    pub fn tag(&self) -> (t: u8)
        ensures
            t == self.spec_tag(),
    {
        match self {
            TokenWrapperInstruction::InitializeWrapperToken => 0,
            TokenWrapperInstruction::DepositAndMintWrapperTokens => 1,
            TokenWrapperInstruction::WithdrawAndBurnWrapperTokens => 2,
        }
    }

    /// Reads the operation tag from the first byte of an instruction payload.
    /// Accepts exactly the tags 0, 1 and 2; trailing bytes are left for the
    /// per-operation payload readers.
    pub fn unpack(instruction_data: &[u8]) -> (r: Result<Self, VaultError>)
        ensures
            r is Ok <==> (instruction_data@.len() >= 1 && instruction_data@[0] <= 2),
            r matches Ok(i) ==> i.spec_tag() == instruction_data@[0],
            r matches Err(e) ==> e == VaultError::InvalidInstructionData,
    {
        if instruction_data.len() < 1 {
            return Err(VaultError::InvalidInstructionData);
        }
        let tag: u8 = *vstd::slice::slice_index_get(instruction_data, 0);
        match tag {
            0 => Ok(TokenWrapperInstruction::InitializeWrapperToken),
            1 => Ok(TokenWrapperInstruction::DepositAndMintWrapperTokens),
            2 => Ok(TokenWrapperInstruction::WithdrawAndBurnWrapperTokens),
            _ => Err(VaultError::InvalidInstructionData),
        }
    }

    /// Reads a little-endian unsigned 64-bit amount from the front of a
    /// payload and returns it with the remaining bytes.
    pub fn unpack_u64(input: &[u8]) -> (r: Result<(u64, &[u8]), VaultError>)
        ensures
            r is Ok <==> input@.len() >= 8,
            r matches Ok((v, rest)) ==> {
                &&& v == vstd::bytes::spec_u64_from_le_bytes(input@.subrange(0, 8))
                &&& rest@ == input@.skip(8)
            },
            r matches Err(e) ==> e == VaultError::InvalidInstructionData,
    {
        if input.len() < 8 {
            return Err(VaultError::InvalidInstructionData);
        }
        let bytes = vstd::slice::slice_subrange(input, 0, 8);
        let value = vstd::bytes::u64_from_le_bytes(bytes);
        let rest = vstd::slice::slice_subrange(input, 8, input.len());
        Ok((value, rest))
    }

    /// Reads a little-endian unsigned 64-bit amount followed by one flag byte
    /// (any non-zero value means true) and returns them with the remaining
    /// bytes.
    pub fn unpack_u64_and_bool(input: &[u8]) -> (r: Result<(u64, bool, &[u8]), VaultError>)
        ensures
            r is Ok <==> input@.len() >= 9,
            r matches Ok((v, b, rest)) ==> {
                &&& v == vstd::bytes::spec_u64_from_le_bytes(input@.subrange(0, 8))
                &&& b == (input@[8] != 0)
                &&& rest@ == input@.skip(9)
            },
            r matches Err(e) ==> e == VaultError::InvalidInstructionData,
    {
        if input.len() < 9 {
            return Err(VaultError::InvalidInstructionData);
        }
        let u64_bytes = vstd::slice::slice_subrange(input, 0, 8);
        let u64_value = vstd::bytes::u64_from_le_bytes(u64_bytes);
        let bool_value = *vstd::slice::slice_index_get(input, 8) != 0;
        let rest = vstd::slice::slice_subrange(input, 9, input.len());
        Ok((u64_value, bool_value, rest))
    }

    /// The one-byte payload of an operation that carries no further data.
    pub fn to_vec(&self) -> (v: Vec<u8>)
        ensures
            v@ == seq![self.spec_tag()],
    {
        let mut v: Vec<u8> = Vec::new();
        v.push(self.tag());
        proof {
            assert(v@ =~= seq![self.spec_tag()]);
        }
        v
    }

    /// The full payload of a deposit or withdraw: the tag, the amount in
    /// little-endian bytes, and the use-maximum flag byte.
    pub fn pack_amount(&self, amount: u64, use_max_amount: bool) -> (v: Vec<u8>)
        ensures
            v@ == seq![self.spec_tag()] + vstd::bytes::spec_u64_to_le_bytes(amount) + seq![
                (if use_max_amount {
                    1u8
                } else {
                    0u8
                }),
            ],
    {
        let mut v: Vec<u8> = Vec::new();
        v.push(self.tag());
        let mut amount_bytes = vstd::bytes::u64_to_le_bytes(amount);
        v.append(&mut amount_bytes);
        v.push(if use_max_amount {
            1
        } else {
            0
        });
        proof {
            assert(v@ =~= seq![self.spec_tag()] + vstd::bytes::spec_u64_to_le_bytes(amount)
                + seq![
                (if use_max_amount {
                    1u8
                } else {
                    0u8
                }),
            ]);
        }
        v
    }
}

} // verus!
