//! Withdraw from a signature-gated vault: the whole value of the vault goes
//! to the payer for whom the vault's signer signed a permission that has
//! not expired.

use vstd::prelude::*;
use crate::account::{same_key, Account, Pubkey};
use crate::address::{secp_vault_signer, secp_vault_signer_seeds};
use crate::error::CustodyError;
use crate::introspect::{
    authorization_rejection, message_expiry, message_payer, read_signature_record,
    record_message, record_rejection, record_signature_count, record_signer, Authorization,
};
use crate::invoke::{invocation_view, signed, Instruction, Invocation, InvocationView};
use crate::programs::{secp256r1_program_id, system_program, system_program_id};

verus! {

/// The accounts of Withdraw by role. The instruction lists the payer, the
/// vault, the account that holds the transaction's instructions, and the
/// value-transfer service, which has no role of its own.
#[derive(Clone, Copy, Debug, PartialEq, Eq)]
pub struct WithdrawAccounts<'a> {
    pub payer: &'a Account,
    pub vault: &'a Account,
    pub instructions: &'a Account,
}

/// Why `accounts` cannot be bound to the roles of Withdraw, if they cannot;
/// the checks apply in this order.
pub open spec fn withdraw_accounts_rejection(accounts: Seq<Account>) -> Option<CustodyError> {
    if accounts.len() != 4 {
        Some(CustodyError::NotFound)
    } else if !accounts[0].is_signer {
        Some(CustodyError::Unauthorized)
    } else if accounts[1].owner@ != system_program_id() {
        Some(CustodyError::Unauthorized)
    } else if accounts[1].lamports == 0 {
        Some(CustodyError::PreconditionFailed)
    } else {
        None
    }
}

impl<'a> WithdrawAccounts<'a> {
    /// Each role is the account at its position in `accounts`.
    pub open spec fn binds(self, accounts: Seq<Account>) -> bool {
        &&& accounts.len() == 4
        &&& *self.payer == accounts[0]
        &&& *self.vault == accounts[1]
        &&& *self.instructions == accounts[2]
    }

    /// Binds the accounts of Withdraw to their roles. The payer must have
    /// signed; the vault must belong to the value-transfer service and must
    /// hold something.
    pub fn try_from(accounts: &'a [Account]) -> (r: Result<WithdrawAccounts<'a>, CustodyError>)
        ensures
            match r {
                Ok(bound) => withdraw_accounts_rejection(accounts@) is None && bound.binds(
                    accounts@,
                ),
                Err(e) => withdraw_accounts_rejection(accounts@) == Some(e),
            },
    {
        if accounts.len() != 4 {
            return Err(CustodyError::NotFound);
        }
        let payer = &accounts[0];
        let vault = &accounts[1];
        if !payer.is_signer {
            return Err(CustodyError::Unauthorized);
        }
        if !vault.is_owned_by(&system_program()) {
            return Err(CustodyError::Unauthorized);
        }
        if vault.lamports == 0 {
            return Err(CustodyError::PreconditionFailed);
        }
        Ok(WithdrawAccounts { payer, vault, instructions: &accounts[2] })
    }
}

/// The payload of Withdraw: the bump of the vault's address, as the caller
/// computed it. It is used as given and not derived again.
#[derive(Clone, Copy, Debug, PartialEq, Eq)]
pub struct WithdrawInstructionData {
    pub bump: [u8; 1],
}

/// Why a Withdraw payload cannot be decoded, if it cannot: it is empty.
pub open spec fn withdraw_data_rejection(data: Seq<u8>) -> Option<CustodyError> {
    if data.len() < 1 {
        Some(CustodyError::MalformedInput)
    } else {
        None
    }
}

impl WithdrawInstructionData {
    /// Decodes the payload of Withdraw: its first byte is the bump.
    pub fn try_from(data: &[u8]) -> (r: Result<WithdrawInstructionData, CustodyError>)
        ensures
            match r {
                Ok(decoded) => withdraw_data_rejection(data@) is None && decoded.bump@ == seq![
                    data@[0],
                ],
                Err(e) => withdraw_data_rejection(data@) == Some(e),
            },
    {
        if data.len() < 1 {
            return Err(CustodyError::MalformedInput);
        }
        let bump = [data[0]];
        assert(bump@ =~= seq![data@[0]]);
        Ok(WithdrawInstructionData { bump })
    }
}

/// Why a Withdraw is rejected before its signature record is read, if it
/// is: first for its accounts, then for its payload.
pub open spec fn withdraw_rejection(data: Seq<u8>, accounts: Seq<Account>) -> Option<
    CustodyError,
> {
    match withdraw_accounts_rejection(accounts) {
        Some(e) => Some(e),
        None => withdraw_data_rejection(data),
    }
}

/// A Withdraw bound to the accounts as they stand.
#[derive(Clone, Copy, Debug, PartialEq, Eq)]
pub struct Withdraw<'a> {
    pub accounts: WithdrawAccounts<'a>,
    pub instruction_data: WithdrawInstructionData,
}

/// Why the signature record of the next instruction grants this
/// withdrawal's payer nothing, if it does not: first for the shape of the
/// record, then for its message.
pub open spec fn authorize_rejection(
    payer: Seq<u8>,
    program: Seq<u8>,
    count: Option<u8>,
    signer: Option<Seq<u8>>,
    message: Option<Seq<u8>>,
) -> Option<CustodyError> {
    match record_rejection(program, count, signer, message) {
        Some(e) => Some(e),
        None => authorization_rejection(message->0, payer),
    }
}

/// What a Withdraw asks of the runtime at `now` under `authorization`:
/// nothing where the permission was granted to another payer than the one
/// of this withdrawal, nothing once the permission has expired, and
/// otherwise that everything the vault holds goes to the payer, signed for
/// the vault of the permission's signer with the bump of the payload.
pub open spec fn withdraw_outcome(withdraw: Withdraw, authorization: Authorization, now: i64)
    -> Result<InvocationView, CustodyError> {
    if authorization.payer@ != withdraw.accounts.payer.key@ {
        Err(CustodyError::Unauthorized)
    } else if now > authorization.expiry {
        Err(CustodyError::PreconditionFailed)
    } else {
        Ok(
            signed(
                Instruction::Transfer {
                    from: withdraw.accounts.vault.key,
                    to: withdraw.accounts.payer.key,
                    lamports: withdraw.accounts.vault.lamports,
                },
                secp_vault_signer_seeds(authorization.signer@, withdraw.instruction_data.bump@[0]),
            ),
        )
    }
}

/// A Withdraw under a permission that was granted to another payer is
/// refused as `Unauthorized`, whatever the time and however the permission
/// was come by.
pub proof fn lemma_withdraw_refuses_permission_of_another_payer(
    withdraw: Withdraw,
    authorization: Authorization,
    now: i64,
)
    requires
        authorization.payer@ != withdraw.accounts.payer.key@,
    ensures
        withdraw_outcome(withdraw, authorization, now) == Err::<InvocationView, CustodyError>(
            CustodyError::Unauthorized,
        ),
{
}

/// A Withdraw under its payer's permission is refused as
/// `PreconditionFailed` where the permission expired before `now`; at the
/// moment of expiry itself it is still granted.
pub proof fn lemma_withdraw_refuses_expired(
    withdraw: Withdraw,
    authorization: Authorization,
    now: i64,
)
    requires
        authorization.payer@ == withdraw.accounts.payer.key@,
    ensures
        authorization.expiry < now ==> withdraw_outcome(withdraw, authorization, now) == Err::<
            InvocationView,
            CustodyError,
        >(CustodyError::PreconditionFailed),
        now <= authorization.expiry ==> withdraw_outcome(withdraw, authorization, now) is Ok,
{
}

/// A signature record of the right shape whose message names another payer
/// than the one of this transaction is refused as `Unauthorized`.
pub proof fn lemma_authorize_refuses_other_payer(
    payer: Seq<u8>,
    program: Seq<u8>,
    count: Option<u8>,
    signer: Option<Seq<u8>>,
    message: Option<Seq<u8>>,
)
    requires
        record_rejection(program, count, signer, message) is None,
        message->0.len() >= 40,
        message_payer(message->0) != payer,
    ensures
        authorize_rejection(payer, program, count, signer, message) == Some(
            CustodyError::Unauthorized,
        ),
{
}

/// A record of the signature verifier that announces no signature, or more
/// than one, or whose data has not the shape of such a record, is refused
/// as `MalformedInput`.
pub proof fn lemma_authorize_refuses_other_than_one_signature(
    payer: Seq<u8>,
    program: Seq<u8>,
    count: Option<u8>,
    signer: Option<Seq<u8>>,
    message: Option<Seq<u8>>,
)
    requires
        program == secp256r1_program_id(),
        count != Some(1u8),
    ensures
        authorize_rejection(payer, program, count, signer, message) == Some(
            CustodyError::MalformedInput,
        ),
{
}

impl<'a> Withdraw<'a> {
    /// Validates a Withdraw: binds the accounts, then decodes the payload.
    pub fn try_from(data: &[u8], accounts: &'a [Account]) -> (r: Result<
        Withdraw<'a>,
        CustodyError,
    >)
        ensures
            match r {
                Ok(withdraw) => withdraw_rejection(data@, accounts@) is None
                    && withdraw.accounts.binds(accounts@) && withdraw.instruction_data.bump@
                    == seq![data@[0]],
                Err(e) => withdraw_rejection(data@, accounts@) == Some(e),
            },
    {
        let accounts = match WithdrawAccounts::try_from(accounts) {
            Ok(accounts) => accounts,
            Err(e) => {
                return Err(e);
            },
        };
        let instruction_data = match WithdrawInstructionData::try_from(data) {
            Ok(data) => data,
            Err(e) => {
                return Err(e);
            },
        };
        Ok(Withdraw { accounts, instruction_data })
    }

    /// Rebuilds the permission under which this withdrawal runs from the
    /// instruction next to it, given that instruction's program and data.
    /// The record must hold exactly one signature, and its message must
    /// name this withdrawal's payer.
    pub fn authorize(&self, record_program: &Pubkey, record_data: &[u8]) -> (r: Result<
        Authorization,
        CustodyError,
    >)
        ensures
            match r {
                Ok(authorization) => authorize_rejection(
                    self.accounts.payer.key@,
                    record_program@,
                    record_signature_count(record_data@),
                    record_signer(record_data@, 0),
                    record_message(record_data@, 0),
                ) is None && Some(authorization.signer@) == record_signer(record_data@, 0)
                    && authorization.payer == self.accounts.payer.key && authorization.expiry
                    == message_expiry(record_message(record_data@, 0)->0),
                Err(e) => authorize_rejection(
                    self.accounts.payer.key@,
                    record_program@,
                    record_signature_count(record_data@),
                    record_signer(record_data@, 0),
                    record_message(record_data@, 0),
                ) == Some(e),
            },
    {
        let record = match read_signature_record(record_program, record_data) {
            Ok(record) => record,
            Err(e) => {
                return Err(e);
            },
        };
        Authorization::from_record(&record, &self.accounts.payer.key)
    }

    /// Names the one sub-operation of a Withdraw at `now`, under a
    /// permission that must have been granted to this withdrawal's payer
    /// and must not have expired.
    pub fn process(&self, authorization: &Authorization, now: i64) -> (r: Result<
        Invocation,
        CustodyError,
    >)
        ensures
            invocation_view(r) == withdraw_outcome(*self, *authorization, now),
    {
        if !same_key(&authorization.payer, &self.accounts.payer.key) {
            return Err(CustodyError::Unauthorized);
        }
        match authorization.check_expiry(now) {
            Ok(()) => {},
            Err(e) => {
                return Err(e);
            },
        }
        Ok(
            Invocation {
                instruction: Instruction::Transfer {
                    from: self.accounts.vault.key,
                    to: self.accounts.payer.key,
                    lamports: self.accounts.vault.lamports,
                },
                signer: Some(
                    secp_vault_signer(&authorization.signer, self.instruction_data.bump[0]),
                ),
            },
        )
    }
}

} // verus!
