//! Deposit into a plain vault: the owner funds the empty vault.

use vstd::prelude::*;
use crate::account::{same_key, Account, Pubkey};
use crate::address::{
    derived_view, find_vault_address, is_derived, program_address, vault_seeds,
};
use crate::bytes::{read_u64_le, u64_from_le};
use crate::error::CustodyError;
use crate::invoke::{unsigned, Instruction, Invocation};
use crate::programs::{system_program, system_program_id};

verus! {

/// The accounts of Deposit by role. The instruction lists the owner, the
/// vault and the value-transfer service, which has no role of its own.
#[derive(Clone, Copy, Debug, PartialEq, Eq)]
pub struct DepositAccounts<'a> {
    pub owner: &'a Account,
    pub vault: &'a Account,
}

/// Why `accounts` cannot be bound to the roles of Deposit, if they cannot,
/// where `derived` is the address derived for the owner's vault; the checks
/// apply in this order.
pub open spec fn deposit_accounts_rejection(
    accounts: Seq<Account>,
    derived: Option<(Seq<u8>, u8)>,
) -> Option<CustodyError> {
    if accounts.len() != 3 {
        Some(CustodyError::NotFound)
    } else if !accounts[0].is_signer {
        Some(CustodyError::Unauthorized)
    } else if accounts[1].owner@ != system_program_id() {
        Some(CustodyError::Unauthorized)
    } else if accounts[1].lamports != 0 {
        Some(CustodyError::PreconditionFailed)
    } else if !is_derived(accounts[1].key@, derived) {
        Some(CustodyError::Unauthorized)
    } else {
        None
    }
}

/// The address derived for the vault of the owner who stands first in
/// `accounts`.
pub open spec fn vault_address(accounts: Seq<Account>, program_id: Seq<u8>) -> Option<
    (Seq<u8>, u8),
>
    recommends
        accounts.len() == 3,
{
    program_address(vault_seeds(accounts[0].key@), program_id)
}

impl<'a> DepositAccounts<'a> {
    /// Each role is the account at its position in `accounts`.
    pub open spec fn binds(self, accounts: Seq<Account>) -> bool {
        &&& accounts.len() == 3
        &&& *self.owner == accounts[0]
        &&& *self.vault == accounts[1]
    }

    /// Binds the accounts of Deposit to their roles, given the address
    /// derived for the owner's vault. The owner must have signed; the vault
    /// must still belong to the value-transfer service, must hold nothing,
    /// and must be at the derived address.
    pub fn with_address(accounts: &'a [Account], derived: Option<(Pubkey, u8)>) -> (r: Result<
        DepositAccounts<'a>,
        CustodyError,
    >)
        ensures
            match r {
                Ok(bound) => deposit_accounts_rejection(accounts@, derived_view(derived)) is None
                    && bound.binds(accounts@),
                Err(e) => deposit_accounts_rejection(accounts@, derived_view(derived)) == Some(e),
            },
    {
        if accounts.len() != 3 {
            return Err(CustodyError::NotFound);
        }
        let owner = &accounts[0];
        let vault = &accounts[1];
        if !owner.is_signer {
            return Err(CustodyError::Unauthorized);
        }
        if !vault.is_owned_by(&system_program()) {
            return Err(CustodyError::Unauthorized);
        }
        if vault.lamports != 0 {
            return Err(CustodyError::PreconditionFailed);
        }
        match derived {
            Some((address, _)) => {
                if !same_key(&address, &vault.key) {
                    return Err(CustodyError::Unauthorized);
                }
            },
            None => {
                return Err(CustodyError::Unauthorized);
            },
        }
        Ok(DepositAccounts { owner, vault })
    }

    /// Binds the accounts of Deposit to their roles, deriving the address of
    /// the owner's vault.
    pub fn try_from(accounts: &'a [Account], program_id: &Pubkey) -> (r: Result<
        DepositAccounts<'a>,
        CustodyError,
    >)
        ensures
            match r {
                Ok(bound) => deposit_accounts_rejection(
                    accounts@,
                    vault_address(accounts@, program_id@),
                ) is None && bound.binds(accounts@),
                Err(e) => deposit_accounts_rejection(
                    accounts@,
                    vault_address(accounts@, program_id@),
                ) == Some(e),
            },
    {
        let derived = if accounts.len() == 3 {
            find_vault_address(&accounts[0].key, program_id)
        } else {
            None
        };
        DepositAccounts::with_address(accounts, derived)
    }
}

/// The payload of Deposit: the amount, in its first eight bytes,
/// little-endian.
#[derive(Clone, Copy, Debug, PartialEq, Eq, Structural)]
pub struct DepositInstructionData {
    pub amount: u64,
}

/// What decoding a Deposit payload yields. Bytes after the eighth are
/// ignored.
pub open spec fn decode_deposit(data: Seq<u8>) -> Result<DepositInstructionData, CustodyError> {
    if data.len() < 8 {
        Err(CustodyError::MalformedInput)
    } else if u64_from_le(data.subrange(0, 8)) == 0 {
        Err(CustodyError::MalformedInput)
    } else {
        Ok(DepositInstructionData { amount: u64_from_le(data.subrange(0, 8)) })
    }
}

impl DepositInstructionData {
    /// Decodes the payload of Deposit. A payload shorter than eight bytes
    /// is rejected, and so is an amount of zero.
    pub fn try_from(data: &[u8]) -> (r: Result<DepositInstructionData, CustodyError>)
        ensures
            r == decode_deposit(data@),
    {
        if data.len() < 8 {
            return Err(CustodyError::MalformedInput);
        }
        let amount = read_u64_le(data, 0);
        if amount == 0 {
            return Err(CustodyError::MalformedInput);
        }
        Ok(DepositInstructionData { amount })
    }
}

/// Why a Deposit is rejected, if it is: first for its accounts, then for
/// its payload.
pub open spec fn deposit_rejection(
    data: Seq<u8>,
    accounts: Seq<Account>,
    derived: Option<(Seq<u8>, u8)>,
) -> Option<CustodyError> {
    match deposit_accounts_rejection(accounts, derived) {
        Some(e) => Some(e),
        None => match decode_deposit(data) {
            Err(e) => Some(e),
            Ok(_) => None,
        },
    }
}

/// A Deposit into a vault that already holds value, or that does not belong
/// to the value-transfer service, is refused whatever address was derived:
/// as `Unauthorized` where the owner did not sign or the vault belongs to
/// another program, and as `PreconditionFailed` otherwise. No sub-operation
/// is named for a Deposit that is refused, so no value moves.
pub proof fn lemma_deposit_refuses_funded_or_foreign_vault(
    data: Seq<u8>,
    accounts: Seq<Account>,
    derived: Option<(Seq<u8>, u8)>,
)
    requires
        accounts.len() == 3,
        accounts[1].lamports != 0 || accounts[1].owner@ != system_program_id(),
    ensures
        deposit_rejection(data, accounts, derived) == Some(
            if !accounts[0].is_signer || accounts[1].owner@ != system_program_id() {
                CustodyError::Unauthorized
            } else {
                CustodyError::PreconditionFailed
            },
        ),
{
}

/// A Deposit bound to the accounts as they stand.
#[derive(Clone, Copy, Debug, PartialEq, Eq)]
pub struct Deposit<'a> {
    pub accounts: DepositAccounts<'a>,
    pub instruction_data: DepositInstructionData,
}

impl<'a> Deposit<'a> {
    /// Validates a Deposit, given the address derived for the owner's
    /// vault.
    pub fn with_address(data: &[u8], accounts: &'a [Account], derived: Option<(Pubkey, u8)>) -> (r:
        Result<Deposit<'a>, CustodyError>)
        ensures
            match r {
                Ok(deposit) => deposit_rejection(data@, accounts@, derived_view(derived)) is None
                    && deposit.accounts.binds(accounts@) && decode_deposit(data@) == Ok::<
                    DepositInstructionData,
                    CustodyError,
                >(deposit.instruction_data),
                Err(e) => deposit_rejection(data@, accounts@, derived_view(derived)) == Some(e),
            },
    {
        let accounts = match DepositAccounts::with_address(accounts, derived) {
            Ok(accounts) => accounts,
            Err(e) => {
                return Err(e);
            },
        };
        let instruction_data = match DepositInstructionData::try_from(data) {
            Ok(data) => data,
            Err(e) => {
                return Err(e);
            },
        };
        Ok(Deposit { accounts, instruction_data })
    }

    /// Validates a Deposit: binds the accounts, then decodes the payload.
    pub fn try_from(data: &[u8], accounts: &'a [Account], program_id: &Pubkey) -> (r: Result<
        Deposit<'a>,
        CustodyError,
    >)
        ensures
            match r {
                Ok(deposit) => deposit_rejection(
                    data@,
                    accounts@,
                    vault_address(accounts@, program_id@),
                ) is None && deposit.accounts.binds(accounts@) && decode_deposit(data@) == Ok::<
                    DepositInstructionData,
                    CustodyError,
                >(deposit.instruction_data),
                Err(e) => deposit_rejection(
                    data@,
                    accounts@,
                    vault_address(accounts@, program_id@),
                ) == Some(e),
            },
    {
        let derived = if accounts.len() == 3 {
            find_vault_address(&accounts[0].key, program_id)
        } else {
            None
        };
        Deposit::with_address(data, accounts, derived)
    }

    /// Names the one sub-operation of a Deposit: the owner's amount goes
    /// into the vault, on the owner's own signature.
    pub fn process(&self) -> (r: Invocation)
        ensures
            r@ == unsigned(
                Instruction::Transfer {
                    from: self.accounts.owner.key,
                    to: self.accounts.vault.key,
                    lamports: self.instruction_data.amount,
                },
            ),
    {
        Invocation {
            instruction: Instruction::Transfer {
                from: self.accounts.owner.key,
                to: self.accounts.vault.key,
                lamports: self.instruction_data.amount,
            },
            signer: None,
        }
    }
}

} // verus!
