//! The well-known identities of the services that instructions name.

use vstd::prelude::*;
use crate::account::Pubkey;

verus! {

/// The identity of the account-creation and value-transfer service: 32 zero
/// bytes.
pub open spec fn system_program_id() -> Seq<u8> {
    seq![
        0u8, 0u8, 0u8, 0u8, 0u8, 0u8, 0u8, 0u8, 0u8, 0u8, 0u8, 0u8, 0u8, 0u8, 0u8, 0u8,
        0u8, 0u8, 0u8, 0u8, 0u8, 0u8, 0u8, 0u8, 0u8, 0u8, 0u8, 0u8, 0u8, 0u8, 0u8, 0u8,
    ]
}

/// The identity of the token-transfer service.
pub open spec fn token_program_id() -> Seq<u8> {
    seq![
        6u8, 221u8, 246u8, 225u8, 215u8, 101u8, 161u8, 147u8, 217u8, 203u8, 225u8, 70u8, 206u8,
        235u8, 121u8, 172u8, 28u8, 180u8, 133u8, 237u8, 95u8, 91u8, 55u8, 145u8, 58u8, 140u8,
        245u8, 133u8, 126u8, 255u8, 0u8, 169u8,
    ]
}

/// The identity of the associated-account-creation service.
pub open spec fn associated_token_program_id() -> Seq<u8> {
    seq![
        140u8, 151u8, 37u8, 143u8, 78u8, 36u8, 137u8, 241u8, 187u8, 61u8, 16u8, 41u8, 20u8,
        142u8, 13u8, 131u8, 11u8, 90u8, 19u8, 153u8, 218u8, 255u8, 16u8, 132u8, 4u8, 142u8,
        123u8, 216u8, 219u8, 233u8, 248u8, 89u8,
    ]
}

/// The identity of the program that verifies secp256r1 signatures and leaves
/// a signature record behind.
pub open spec fn secp256r1_program_id() -> Seq<u8> {
    seq![
        0x06u8, 0x92u8, 0x0du8, 0xecu8, 0x2fu8, 0xeau8, 0x71u8, 0xb5u8, 0xb7u8, 0x23u8, 0x81u8,
        0x4du8, 0x74u8, 0x2du8, 0xa9u8, 0x03u8, 0x1cu8, 0x83u8, 0xe7u8, 0x5fu8, 0xdbu8, 0x79u8,
        0x5du8, 0x56u8, 0x8eu8, 0x75u8, 0x47u8, 0x80u8, 0x20u8, 0x00u8, 0x00u8, 0x00u8,
    ]
}

/// `pinocchio_system::id`. Trusted: it returns the constant that the crate
/// declares from the base58 text `11111111111111111111111111111111`, which
/// decodes to 32 zero bytes.
#[verifier::external_body]
pub(crate) fn system_program() -> (id: Pubkey)
    ensures
        id@ == system_program_id(),
{
    pinocchio_system::id()
}

/// `pinocchio_token::id`. Trusted: it returns the constant that the crate
/// declares from the base58 text
/// `TokenkegQfeZyiNwAJbNbGKPFXCWuBvf9Ss623VQ5DA`, whose 32 decoded bytes are
/// those of [`token_program_id`].
#[verifier::external_body]
pub(crate) fn token_program() -> (id: Pubkey)
    ensures
        id@ == token_program_id(),
{
    pinocchio_token::id()
}

/// `pinocchio_associated_token_account::id`. Trusted: it returns the constant
/// that the crate declares from the base58 text
/// `ATokenGPvbdGVxr1b2hvZbsiqW5xWH25efTNsLJA8knL`, whose 32 decoded bytes are
/// those of [`associated_token_program_id`].
#[verifier::external_body]
pub(crate) fn associated_token_program() -> (id: Pubkey)
    ensures
        id@ == associated_token_program_id(),
{
    pinocchio_associated_token_account::id()
}

/// `pinocchio_secp256r1_instruction::SECP256R1_PROGRAM_ID`. Trusted: the
/// crate spells out this constant as the 32 bytes of
/// [`secp256r1_program_id`].
#[verifier::external_body]
pub(crate) fn secp256r1_program() -> (id: Pubkey)
    ensures
        id@ == secp256r1_program_id(),
{
    pinocchio_secp256r1_instruction::SECP256R1_PROGRAM_ID
}

} // verus!
