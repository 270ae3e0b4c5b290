//! Deposit into a signature-gated vault: the payer funds the empty vault of
//! the signer named in the payload.

use vstd::prelude::*;
use crate::account::{same_key, Account, Pubkey};
use crate::address::{
    derived_view, find_secp_vault_address, is_derived, program_address, secp_vault_seeds,
    Secp256r1Pubkey,
};
use crate::bytes::{read_u64_le, u64_from_le};
use crate::error::CustodyError;
use crate::invoke::{invocation_view, unsigned, Instruction, Invocation, InvocationView};
use crate::programs::{system_program, system_program_id};

verus! {

/// The accounts of Deposit by role. The instruction lists the payer, the
/// vault and the value-transfer service, which has no role of its own.
#[derive(Clone, Copy, Debug, PartialEq, Eq)]
pub struct DepositAccounts<'a> {
    pub payer: &'a Account,
    pub vault: &'a Account,
}

/// Why `accounts` cannot be bound to the roles of Deposit, if they cannot;
/// the checks apply in this order.
pub open spec fn deposit_accounts_rejection(accounts: Seq<Account>) -> Option<CustodyError> {
    if accounts.len() != 3 {
        Some(CustodyError::NotFound)
    } else if !accounts[0].is_signer {
        Some(CustodyError::Unauthorized)
    } else if accounts[1].owner@ != system_program_id() {
        Some(CustodyError::Unauthorized)
    } else if accounts[1].lamports != 0 {
        Some(CustodyError::PreconditionFailed)
    } else {
        None
    }
}

impl<'a> DepositAccounts<'a> {
    /// Each role is the account at its position in `accounts`.
    pub open spec fn binds(self, accounts: Seq<Account>) -> bool {
        &&& accounts.len() == 3
        &&& *self.payer == accounts[0]
        &&& *self.vault == accounts[1]
    }

    /// Binds the accounts of Deposit to their roles. The payer must have
    /// signed; the vault must still belong to the value-transfer service
    /// and must hold nothing.
    pub fn try_from(accounts: &'a [Account]) -> (r: Result<DepositAccounts<'a>, CustodyError>)
        ensures
            match r {
                Ok(bound) => deposit_accounts_rejection(accounts@) is None && bound.binds(
                    accounts@,
                ),
                Err(e) => deposit_accounts_rejection(accounts@) == Some(e),
            },
    {
        if accounts.len() != 3 {
            return Err(CustodyError::NotFound);
        }
        let payer = &accounts[0];
        let vault = &accounts[1];
        if !payer.is_signer {
            return Err(CustodyError::Unauthorized);
        }
        if !vault.is_owned_by(&system_program()) {
            return Err(CustodyError::Unauthorized);
        }
        if vault.lamports != 0 {
            return Err(CustodyError::PreconditionFailed);
        }
        Ok(DepositAccounts { payer, vault })
    }
}

/// The payload of Deposit.
///
/// | bytes    | field    |
/// |----------|----------|
/// | `0..33`  | `pubkey` |
/// | `33..41` | `amount`, little-endian |
#[derive(Clone, Copy, Debug, PartialEq, Eq)]
pub struct DepositInstructionData {
    /// The signer whose vault is funded.
    pub pubkey: Secp256r1Pubkey,
    /// How much is deposited.
    pub amount: u64,
}

/// Why a Deposit payload cannot be decoded, if it cannot: it is shorter
/// than 41 bytes. Bytes after the 41st are ignored.
pub open spec fn deposit_data_rejection(data: Seq<u8>) -> Option<CustodyError> {
    if data.len() < 41 {
        Some(CustodyError::MalformedInput)
    } else {
        None
    }
}

impl DepositInstructionData {
    /// The payload holds these fields.
    pub open spec fn decodes(self, data: Seq<u8>) -> bool
        recommends
            data.len() >= 41,
    {
        &&& self.pubkey@ == data.subrange(0, 33)
        &&& self.amount == u64_from_le(data.subrange(33, 41))
    }

    /// Decodes the payload of Deposit. A payload shorter than 41 bytes is
    /// rejected.
    pub fn try_from(data: &[u8]) -> (r: Result<DepositInstructionData, CustodyError>)
        ensures
            match r {
                Ok(decoded) => deposit_data_rejection(data@) is None && decoded.decodes(data@),
                Err(e) => deposit_data_rejection(data@) == Some(e),
            },
    {
        if data.len() < 41 {
            return Err(CustodyError::MalformedInput);
        }
        let mut pubkey = [0u8; 33];
        let mut i: usize = 0;
        while i < 33
            invariant
                i <= 33,
                data@.len() >= 41,
                forall|j: int| 0 <= j < i ==> pubkey@[j] == data@[j],
            decreases 33 - i,
        {
            pubkey[i] = data[i];
            i += 1;
        }
        assert(pubkey@ =~= data@.subrange(0, 33));
        let amount = read_u64_le(data, 33);
        Ok(DepositInstructionData { pubkey, amount })
    }
}

/// Why a Deposit is rejected before any address is derived, if it is:
/// first for its accounts, then for its payload.
pub open spec fn deposit_rejection(data: Seq<u8>, accounts: Seq<Account>) -> Option<
    CustodyError,
> {
    match deposit_accounts_rejection(accounts) {
        Some(e) => Some(e),
        None => deposit_data_rejection(data),
    }
}

/// A Deposit bound to the accounts as they stand.
#[derive(Clone, Copy, Debug, PartialEq, Eq)]
pub struct Deposit<'a> {
    pub accounts: DepositAccounts<'a>,
    pub instruction_data: DepositInstructionData,
}

/// What a Deposit asks of the runtime, where `derived` is the address
/// derived for the vault of the signer named in the payload: the vault must
/// be at that address, and then the payer's amount goes into it, on the
/// payer's own signature.
pub open spec fn deposit_outcome(deposit: Deposit, derived: Option<(Seq<u8>, u8)>) -> Result<
    InvocationView,
    CustodyError,
> {
    if is_derived(deposit.accounts.vault.key@, derived) {
        Ok(
            unsigned(
                Instruction::Transfer {
                    from: deposit.accounts.payer.key,
                    to: deposit.accounts.vault.key,
                    lamports: deposit.instruction_data.amount,
                },
            ),
        )
    } else {
        Err(CustodyError::Unauthorized)
    }
}

impl<'a> Deposit<'a> {
    /// Validates a Deposit: binds the accounts, then decodes the payload.
    pub fn try_from(data: &[u8], accounts: &'a [Account]) -> (r: Result<Deposit<'a>, CustodyError>)
        ensures
            match r {
                Ok(deposit) => deposit_rejection(data@, accounts@) is None
                    && deposit.accounts.binds(accounts@) && deposit.instruction_data.decodes(
                    data@,
                ),
                Err(e) => deposit_rejection(data@, accounts@) == Some(e),
            },
    {
        let accounts = match DepositAccounts::try_from(accounts) {
            Ok(accounts) => accounts,
            Err(e) => {
                return Err(e);
            },
        };
        let instruction_data = match DepositInstructionData::try_from(data) {
            Ok(data) => data,
            Err(e) => {
                return Err(e);
            },
        };
        Ok(Deposit { accounts, instruction_data })
    }

    /// Names the one sub-operation of a Deposit, given the address derived
    /// for the signer's vault.
    pub fn process_with_address(&self, derived: Option<(Pubkey, u8)>) -> (r: Result<
        Invocation,
        CustodyError,
    >)
        ensures
            invocation_view(r) == deposit_outcome(*self, derived_view(derived)),
    {
        match derived {
            Some((address, _)) => {
                if !same_key(&address, &self.accounts.vault.key) {
                    return Err(CustodyError::Unauthorized);
                }
            },
            None => {
                return Err(CustodyError::Unauthorized);
            },
        }
        Ok(
            Invocation {
                instruction: Instruction::Transfer {
                    from: self.accounts.payer.key,
                    to: self.accounts.vault.key,
                    lamports: self.instruction_data.amount,
                },
                signer: None,
            },
        )
    }

    /// Names the one sub-operation of a Deposit. The address of the vault
    /// is derived from the signer's public key, not from the payer.
    pub fn process(&self, program_id: &Pubkey) -> (r: Result<Invocation, CustodyError>)
        ensures
            invocation_view(r) == deposit_outcome(
                *self,
                program_address(secp_vault_seeds(self.instruction_data.pubkey@), program_id@),
            ),
    {
        let derived = find_secp_vault_address(&self.instruction_data.pubkey, program_id);
        self.process_with_address(derived)
    }
}

} // verus!
