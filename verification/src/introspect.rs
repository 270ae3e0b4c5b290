//! Authorization by signature record: the record that the signature
//! verifier left in the instruction next to this one names a signer and a
//! message, and the message names the payer it was signed for and the time
//! until which it holds.

use vstd::prelude::*;
use crate::account::{key_matches, same_key, Pubkey};
use crate::address::Secp256r1Pubkey;
use crate::bytes::{i64_from_le, read_i64_le};
use crate::error::CustodyError;
use crate::programs::{secp256r1_program, secp256r1_program_id};

verus! {

/// The error type of the crates that read the runtime's records.
#[verifier::external_type_specification]
#[verifier::external_body]
pub struct ExProgramError(pinocchio::program_error::ProgramError);

/// The number of signatures that the data of a signature-verifier
/// instruction announces: its first byte, where the data holds the two
/// bytes of the header and fourteen more for each signature announced.
/// Data that does not is no signature record.
pub open spec fn record_signature_count(data: Seq<u8>) -> Option<u8> {
    if data.len() >= 2 && data.len() >= 2 + 14 * (data[0] as int) {
        Some(data[0])
    } else {
        None
    }
}

/// The public key of the signature at `index` in the data of a
/// signature-verifier instruction, where the data holds one. It lies at an
/// offset that the record gives as a 16-bit number, which is read as the
/// machine stores such numbers; so the place is named here and not written
/// out.
pub uninterp spec fn record_signer(data: Seq<u8>, index: usize) -> Option<Seq<u8>>;

/// The message of the signature at `index` in the data of a
/// signature-verifier instruction, where the data holds one. Its offset and
/// its length are 16-bit numbers of the record, read as the machine stores
/// such numbers; so the place is named here and not written out.
pub uninterp spec fn record_message(data: Seq<u8>, index: usize) -> Option<Seq<u8>>;

/// The view of what was read, where the read succeeded.
pub open spec fn read_view<T: View>(
    r: Result<T, pinocchio::program_error::ProgramError>,
) -> Option<T::V> {
    match r {
        Ok(v) => Some(v@),
        Err(_) => None,
    }
}

/// `Secp256r1Instruction::try_from` on the instruction's data, then
/// `num_signatures`, `get_signer` and `get_message_data` on the record it
/// gives. Trusted: the data is a record exactly where
/// [`record_signature_count`] says so, and the count is then its first
/// byte; signer and message at `index` are functions of the data and the
/// index alone.
#[verifier::external_body]
fn record_parts(data: &[u8], index: usize) -> (r: Result<
    (
        u8,
        Result<Secp256r1Pubkey, pinocchio::program_error::ProgramError>,
        Result<Vec<u8>, pinocchio::program_error::ProgramError>,
    ),
    pinocchio::program_error::ProgramError,
>)
    ensures
        r is Err <==> record_signature_count(data@) is None,
        r matches Ok((count, _, _)) ==> record_signature_count(data@) == Some(count),
        r matches Ok((_, signer, _)) ==> read_view(signer) == record_signer(data@, index),
        r matches Ok((_, _, message)) ==> read_view(message) == record_message(data@, index),
{
    match pinocchio_secp256r1_instruction::Secp256r1Instruction::try_from(data) {
        Ok(record) => Ok(
            (
                record.num_signatures(),
                record.get_signer(index).copied(),
                record.get_message_data(index).map(|message| message.to_vec()),
            ),
        ),
        Err(e) => Err(e),
    }
}

/// What a signature record attests: that `signer` signed `message`.
#[derive(Clone, Debug, PartialEq, Eq)]
pub struct SignatureRecord {
    pub signer: Secp256r1Pubkey,
    pub message: Vec<u8>,
}

/// Why no single signature can be taken from an instruction of `program`
/// that announces `count` signatures and holds `signer` and `message` first,
/// if none can; the checks apply in this order.
pub open spec fn record_rejection(
    program: Seq<u8>,
    count: Option<u8>,
    signer: Option<Seq<u8>>,
    message: Option<Seq<u8>>,
) -> Option<CustodyError> {
    if program != secp256r1_program_id() {
        Some(CustodyError::Unauthorized)
    } else if count != Some(1u8) {
        Some(CustodyError::MalformedInput)
    } else if signer is None || message is None {
        Some(CustodyError::MalformedInput)
    } else {
        None
    }
}

/// Takes the one signature out of what was read from the instruction next
/// to this one. The instruction must be the signature verifier's, it must
/// announce exactly one signature, and signer and message must be there.
pub fn select_record(
    program: &Pubkey,
    count: Option<u8>,
    signer: Option<Secp256r1Pubkey>,
    message: Option<Vec<u8>>,
) -> (r: Result<SignatureRecord, CustodyError>)
    ensures
        match r {
            Ok(record) => record_rejection(
                program@,
                count,
                signer_view(signer),
                message_view(message),
            ) is None && Some(record.signer@) == signer_view(signer) && Some(record.message@)
                == message_view(message),
            Err(e) => record_rejection(program@, count, signer_view(signer), message_view(message))
                == Some(e),
        },
{
    if !same_key(program, &secp256r1_program()) {
        return Err(CustodyError::Unauthorized);
    }
    match count {
        Some(n) => {
            if n != 1 {
                return Err(CustodyError::MalformedInput);
            }
        },
        None => {
            return Err(CustodyError::MalformedInput);
        },
    }
    match (signer, message) {
        (Some(signer), Some(message)) => Ok(SignatureRecord { signer, message }),
        _ => Err(CustodyError::MalformedInput),
    }
}

/// A signer as plain bytes, where there is one.
pub open spec fn signer_view(signer: Option<Secp256r1Pubkey>) -> Option<Seq<u8>> {
    match signer {
        Some(s) => Some(s@),
        None => None,
    }
}

/// A message as plain bytes, where there is one.
pub open spec fn message_view(message: Option<Vec<u8>>) -> Option<Seq<u8>> {
    match message {
        Some(m) => Some(m@),
        None => None,
    }
}

/// Reads the signature record out of the instruction next to this one,
/// given the program and the data of that instruction.
pub fn read_signature_record(program: &Pubkey, data: &[u8]) -> (r: Result<
    SignatureRecord,
    CustodyError,
>)
    ensures
        match r {
            Ok(record) => record_rejection(
                program@,
                record_signature_count(data@),
                record_signer(data@, 0),
                record_message(data@, 0),
            ) is None && Some(record.signer@) == record_signer(data@, 0) && Some(record.message@)
                == record_message(data@, 0),
            Err(e) => record_rejection(
                program@,
                record_signature_count(data@),
                record_signer(data@, 0),
                record_message(data@, 0),
            ) == Some(e),
        },
{
    match record_parts(data, 0) {
        Ok((count, signer, message)) => {
            let signer = match signer {
                Ok(s) => Some(s),
                Err(_) => None,
            };
            let message = match message {
                Ok(m) => Some(m),
                Err(_) => None,
            };
            select_record(program, Some(count), signer, message)
        },
        Err(_) => select_record(program, None, None, None),
    }
}

/// The permission that a signed message grants: `signer` lets `payer`
/// withdraw until `expiry`. It is rebuilt for every withdrawal and never
/// stored.
#[derive(Clone, Copy, Debug, PartialEq, Eq)]
pub struct Authorization {
    /// Who signed.
    pub signer: Secp256r1Pubkey,
    /// For whom the message was signed.
    pub payer: Pubkey,
    /// The last moment, in seconds of ledger time, at which it holds.
    pub expiry: i64,
}

/// The payer that a message names: its first 32 bytes.
pub open spec fn message_payer(message: Seq<u8>) -> Seq<u8>
    recommends
        message.len() >= 40,
{
    message.subrange(0, 32)
}

/// The expiry that a message names: the eight bytes after the payer, a
/// signed little-endian integer.
pub open spec fn message_expiry(message: Seq<u8>) -> i64
    recommends
        message.len() >= 40,
{
    i64_from_le(message.subrange(32, 40))
}

/// Why a message grants `payer` nothing, if it does not; the checks apply
/// in this order.
pub open spec fn authorization_rejection(message: Seq<u8>, payer: Seq<u8>) -> Option<
    CustodyError,
> {
    if message.len() < 40 {
        Some(CustodyError::MalformedInput)
    } else if message_payer(message) != payer {
        Some(CustodyError::Unauthorized)
    } else {
        None
    }
}

impl Authorization {
    /// Rebuilds the permission that a signature record grants to `payer`.
    /// The message must hold a payer and an expiry, and its payer must be
    /// `payer`.
    pub fn from_record(record: &SignatureRecord, payer: &Pubkey) -> (r: Result<
        Authorization,
        CustodyError,
    >)
        ensures
            match r {
                Ok(authorization) => authorization_rejection(record.message@, payer@) is None
                    && authorization.signer == record.signer && authorization.payer == *payer
                    && authorization.expiry == message_expiry(record.message@),
                Err(e) => authorization_rejection(record.message@, payer@) == Some(e),
            },
    {
        let message = record.message.as_slice();
        if message.len() < 40 {
            return Err(CustodyError::MalformedInput);
        }
        if !key_matches(payer, message) {
            return Err(CustodyError::Unauthorized);
        }
        let expiry = read_i64_le(message, 32);
        Ok(Authorization { signer: record.signer, payer: *payer, expiry })
    }

    /// Whether the permission still holds at `now`: it does up to and
    /// including its expiry.
    pub fn check_expiry(&self, now: i64) -> (r: Result<(), CustodyError>)
        ensures
            now <= self.expiry ==> r == Ok::<(), CustodyError>(()),
            now > self.expiry ==> r == Err::<(), CustodyError>(CustodyError::PreconditionFailed),
    {
        if now > self.expiry {
            Err(CustodyError::PreconditionFailed)
        } else {
            Ok(())
        }
    }
}

} // verus!
