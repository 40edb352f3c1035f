//! The instruction byte layout: tags, amounts, flags.

use token_wrapper::error::{TokenWrapperError, VaultError};
use token_wrapper::instruction::TokenWrapperInstruction;

#[test]
fn unpack_reads_tags() {
    assert_eq!(
        TokenWrapperInstruction::unpack(&[0]),
        Ok(TokenWrapperInstruction::InitializeWrapperToken)
    );
    assert_eq!(
        TokenWrapperInstruction::unpack(&[1, 5, 6]),
        Ok(TokenWrapperInstruction::DepositAndMintWrapperTokens)
    );
    assert_eq!(
        TokenWrapperInstruction::unpack(&[2]),
        Ok(TokenWrapperInstruction::WithdrawAndBurnWrapperTokens)
    );
    assert_eq!(
        TokenWrapperInstruction::unpack(&[]),
        Err(VaultError::InvalidInstructionData)
    );
    assert_eq!(
        TokenWrapperInstruction::unpack(&[3]),
        Err(VaultError::InvalidInstructionData)
    );
    assert_eq!(
        TokenWrapperInstruction::unpack(&[255, 0]),
        Err(VaultError::InvalidInstructionData)
    );
}

#[test]
fn unpack_u64_reads_little_endian() {
    let bytes = [1u8, 2, 3, 4, 5, 6, 7, 8, 99, 100];
    let (value, rest) = TokenWrapperInstruction::unpack_u64(&bytes).unwrap();
    assert_eq!(value, 0x0807060504030201);
    assert_eq!(rest, &[99, 100]);

    let exact = 42u64.to_le_bytes();
    let (value, rest) = TokenWrapperInstruction::unpack_u64(&exact).unwrap();
    assert_eq!(value, 42);
    assert!(rest.is_empty());

    assert_eq!(
        TokenWrapperInstruction::unpack_u64(&[1, 2, 3]),
        Err(VaultError::InvalidInstructionData)
    );
}

#[test]
fn unpack_u64_and_bool_reads_flag() {
    let mut bytes = 7u64.to_le_bytes().to_vec();
    bytes.push(0);
    let (value, flag, rest) = TokenWrapperInstruction::unpack_u64_and_bool(&bytes).unwrap();
    assert_eq!(value, 7);
    assert!(!flag);
    assert!(rest.is_empty());

    let mut bytes = 7u64.to_le_bytes().to_vec();
    bytes.push(17);
    bytes.push(200);
    let (value, flag, rest) = TokenWrapperInstruction::unpack_u64_and_bool(&bytes).unwrap();
    assert_eq!(value, 7);
    assert!(flag);
    assert_eq!(rest, &[200]);

    assert_eq!(
        TokenWrapperInstruction::unpack_u64_and_bool(&7u64.to_le_bytes()),
        Err(VaultError::InvalidInstructionData)
    );
}

#[test]
fn to_vec_and_pack_amount_layout() {
    assert_eq!(TokenWrapperInstruction::InitializeWrapperToken.to_vec(), vec![0]);
    assert_eq!(TokenWrapperInstruction::DepositAndMintWrapperTokens.to_vec(), vec![1]);
    assert_eq!(TokenWrapperInstruction::WithdrawAndBurnWrapperTokens.to_vec(), vec![2]);

    let packed = TokenWrapperInstruction::DepositAndMintWrapperTokens.pack_amount(77, true);
    assert_eq!(packed, vec![1, 77, 0, 0, 0, 0, 0, 0, 0, 1]);
    let packed = TokenWrapperInstruction::WithdrawAndBurnWrapperTokens.pack_amount(258, false);
    assert_eq!(packed, vec![2, 2, 1, 0, 0, 0, 0, 0, 0, 0]);
}

#[test]
fn pack_then_unpack_round_trip() {
    let packed = TokenWrapperInstruction::DepositAndMintWrapperTokens
        .pack_amount(123_456_789_012, true);
    let instruction = TokenWrapperInstruction::unpack(&packed).unwrap();
    assert_eq!(instruction, TokenWrapperInstruction::DepositAndMintWrapperTokens);
    let (amount, flag, rest) =
        TokenWrapperInstruction::unpack_u64_and_bool(&packed[1..]).unwrap();
    assert_eq!(amount, 123_456_789_012);
    assert!(flag);
    assert!(rest.is_empty());
}

#[test]
fn error_codes_and_messages() {
    let cases = [
        (TokenWrapperError::UnexpectedWrapperToken, 0, "Unexpected wrapper token mint"),
        (TokenWrapperError::UnexpectedTokenProgram, 1, "Unexpected SPL Token Program"),
        (TokenWrapperError::UnexpectedToken2022Program, 2, "Unexpected Token 2022 Program"),
        (TokenWrapperError::UnexpectedSystemProgram, 3, "Unexpected System Program"),
        (TokenWrapperError::UnexpectedRent, 4, "Unexpected Rent"),
        (TokenWrapperError::InvalidTokenAccount, 5, "Invalid token account"),
        (TokenWrapperError::InvalidTokenMint, 6, "Invalid token mint"),
        (
            TokenWrapperError::UnexpectedReserveTokenAccount,
            7,
            "Unexpected reserve token account",
        ),
        (TokenWrapperError::UnexpectedReserveAuthority, 8, "Unexpected reserve authority"),
        (TokenWrapperError::MissingSigner, 9, "A required signer did not sign"),
    ];
    for (err, code, message) in cases {
        assert_eq!(err.code(), code);
        assert_eq!(err.message(), message);
    }
}
