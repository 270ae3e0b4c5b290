//! The closed set of instructions and their payloads.
//!
//! | instruction        | payload                                          |
//! |--------------------|--------------------------------------------------|
//! | Make               | `seed[0..8]`, `receive[8..16]`, `amount[16..24]` |
//! | Take, Refund       | none                                             |
//! | vault Deposit      | `amount[0..8]`                                   |
//! | vault Withdraw     | none                                             |
//! | secp-vault Deposit | `signer_pubkey[0..33]`, `amount[33..41]`         |
//! | secp-vault Withdraw| `bump[0]`                                        |
//!
//! All integers are little-endian.

use vstd::prelude::*;
use crate::error::CustodyError;
use crate::escrow::make::{decode_make, MakeInstructionData};
use crate::secp_vault::deposit::{deposit_data_rejection, DepositInstructionData as SecpDeposit};
use crate::secp_vault::withdraw::{withdraw_data_rejection, WithdrawInstructionData};
use crate::vault::deposit::{decode_deposit, DepositInstructionData};

verus! {

/// Which instruction a payload belongs to.
#[derive(Clone, Copy, Debug, PartialEq, Eq, Structural)]
pub enum InstructionKind {
    Make,
    Take,
    Refund,
    VaultDeposit,
    VaultWithdraw,
    SecpVaultDeposit,
    SecpVaultWithdraw,
}

/// One instruction with its decoded payload.
#[derive(Clone, Copy, Debug, PartialEq, Eq)]
pub enum Request {
    Make(MakeInstructionData),
    Take,
    Refund,
    VaultDeposit(DepositInstructionData),
    VaultWithdraw,
    SecpVaultDeposit(SecpDeposit),
    SecpVaultWithdraw(WithdrawInstructionData),
}

impl Request {
    /// Which instruction this is.
    pub open spec fn kind(self) -> InstructionKind {
        match self {
            Request::Make(_) => InstructionKind::Make,
            Request::Take => InstructionKind::Take,
            Request::Refund => InstructionKind::Refund,
            Request::VaultDeposit(_) => InstructionKind::VaultDeposit,
            Request::VaultWithdraw => InstructionKind::VaultWithdraw,
            Request::SecpVaultDeposit(_) => InstructionKind::SecpVaultDeposit,
            Request::SecpVaultWithdraw(_) => InstructionKind::SecpVaultWithdraw,
        }
    }
}

/// Why the payload of an instruction of `kind` cannot be decoded, if it
/// cannot. An instruction without a payload accepts any bytes and ignores
/// them.
pub open spec fn payload_rejection(kind: InstructionKind, data: Seq<u8>) -> Option<CustodyError> {
    match kind {
        InstructionKind::Make => match decode_make(data) {
            Ok(_) => None,
            Err(e) => Some(e),
        },
        InstructionKind::VaultDeposit => match decode_deposit(data) {
            Ok(_) => None,
            Err(e) => Some(e),
        },
        InstructionKind::SecpVaultDeposit => deposit_data_rejection(data),
        InstructionKind::SecpVaultWithdraw => withdraw_data_rejection(data),
        InstructionKind::Take | InstructionKind::Refund | InstructionKind::VaultWithdraw => None,
    }
}

/// The request holds what the payload says.
pub open spec fn decodes(request: Request, data: Seq<u8>) -> bool {
    match request {
        Request::Make(decoded) => decode_make(data) == Ok::<MakeInstructionData, CustodyError>(
            decoded,
        ),
        Request::VaultDeposit(decoded) => decode_deposit(data) == Ok::<
            DepositInstructionData,
            CustodyError,
        >(decoded),
        Request::SecpVaultDeposit(decoded) => decoded.decodes(data),
        Request::SecpVaultWithdraw(decoded) => decoded.bump@ == seq![data[0]],
        Request::Take | Request::Refund | Request::VaultWithdraw => true,
    }
}

/// Decodes the payload of an instruction of `kind` into a typed request.
pub fn decode(kind: InstructionKind, data: &[u8]) -> (r: Result<Request, CustodyError>)
    ensures
        match r {
            Ok(request) => payload_rejection(kind, data@) is None && request.kind() == kind
                && decodes(request, data@),
            Err(e) => payload_rejection(kind, data@) == Some(e),
        },
{
    match kind {
        InstructionKind::Make => match MakeInstructionData::try_from(data) {
            Ok(decoded) => Ok(Request::Make(decoded)),
            Err(e) => Err(e),
        },
        InstructionKind::Take => Ok(Request::Take),
        InstructionKind::Refund => Ok(Request::Refund),
        InstructionKind::VaultDeposit => match DepositInstructionData::try_from(data) {
            Ok(decoded) => Ok(Request::VaultDeposit(decoded)),
            Err(e) => Err(e),
        },
        InstructionKind::VaultWithdraw => Ok(Request::VaultWithdraw),
        InstructionKind::SecpVaultDeposit => match SecpDeposit::try_from(data) {
            Ok(decoded) => Ok(Request::SecpVaultDeposit(decoded)),
            Err(e) => Err(e),
        },
        InstructionKind::SecpVaultWithdraw => match WithdrawInstructionData::try_from(data) {
            Ok(decoded) => Ok(Request::SecpVaultWithdraw(decoded)),
            Err(e) => Err(e),
        },
    }
}

} // verus!
