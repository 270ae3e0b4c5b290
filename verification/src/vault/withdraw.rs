//! Withdraw from a plain vault: the whole value of the vault goes back to
//! its owner.

use vstd::prelude::*;
use crate::account::{same_key, Account, Pubkey};
use crate::address::{
    derived_view, find_vault_address, is_derived, vault_signer, vault_signer_seeds,
};
use crate::error::CustodyError;
use crate::invoke::{signed, Instruction, Invocation};
use crate::programs::{system_program, system_program_id};
use crate::vault::deposit::vault_address;

verus! {

/// The accounts of Withdraw by role, and the bump of the vault's address,
/// kept for signing. The instruction lists the owner, the vault and the
/// value-transfer service, which has no role of its own.
#[derive(Clone, Copy, Debug, PartialEq, Eq)]
pub struct WithdrawAccounts<'a> {
    pub owner: &'a Account,
    pub vault: &'a Account,
    pub bumps: [u8; 1],
}

/// Why `accounts` cannot be bound to the roles of Withdraw, if they cannot,
/// where `derived` is the address derived for the owner's vault; the checks
/// apply in this order.
pub open spec fn withdraw_accounts_rejection(
    accounts: Seq<Account>,
    derived: Option<(Seq<u8>, u8)>,
) -> Option<CustodyError> {
    if accounts.len() != 3 {
        Some(CustodyError::NotFound)
    } else if !accounts[0].is_signer {
        Some(CustodyError::Unauthorized)
    } else if accounts[1].owner@ != system_program_id() {
        Some(CustodyError::Unauthorized)
    } else if accounts[1].lamports == 0 {
        Some(CustodyError::PreconditionFailed)
    } else if !is_derived(accounts[1].key@, derived) {
        Some(CustodyError::Unauthorized)
    } else {
        None
    }
}

impl<'a> WithdrawAccounts<'a> {
    /// Each role is the account at its position in `accounts`, and the bump
    /// is the one that `derived` names.
    pub open spec fn binds(self, accounts: Seq<Account>, derived: Option<(Seq<u8>, u8)>) -> bool {
        &&& accounts.len() == 3
        &&& *self.owner == accounts[0]
        &&& *self.vault == accounts[1]
        &&& derived matches Some((_, bump)) && self.bumps@ == seq![bump]
    }

    /// Binds the accounts of Withdraw to their roles, given the address
    /// derived for the owner's vault. The owner must have signed; the vault
    /// must belong to the value-transfer service, must hold something, and
    /// must be at the derived address.
    pub fn with_address(accounts: &'a [Account], derived: Option<(Pubkey, u8)>) -> (r: Result<
        WithdrawAccounts<'a>,
        CustodyError,
    >)
        ensures
            match r {
                Ok(bound) => withdraw_accounts_rejection(accounts@, derived_view(derived)) is None
                    && bound.binds(accounts@, derived_view(derived)),
                Err(e) => withdraw_accounts_rejection(accounts@, derived_view(derived)) == Some(e),
            },
    {
        if accounts.len() != 3 {
            return Err(CustodyError::NotFound);
        }
        let owner = &accounts[0];
        let vault = &accounts[1];
        if !owner.is_signer {
            return Err(CustodyError::Unauthorized);
        }
        if !vault.is_owned_by(&system_program()) {
            return Err(CustodyError::Unauthorized);
        }
        if vault.lamports == 0 {
            return Err(CustodyError::PreconditionFailed);
        }
        match derived {
            Some((address, bump)) => {
                if !same_key(&address, &vault.key) {
                    return Err(CustodyError::Unauthorized);
                }
                let bumps = [bump];
                assert(bumps@ =~= seq![bump]);
                Ok(WithdrawAccounts { owner, vault, bumps })
            },
            None => Err(CustodyError::Unauthorized),
        }
    }

    /// Binds the accounts of Withdraw to their roles, deriving the address
    /// of the owner's vault and keeping its bump.
    pub fn try_from(accounts: &'a [Account], program_id: &Pubkey) -> (r: Result<
        WithdrawAccounts<'a>,
        CustodyError,
    >)
        ensures
            match r {
                Ok(bound) => withdraw_accounts_rejection(
                    accounts@,
                    vault_address(accounts@, program_id@),
                ) is None && bound.binds(accounts@, vault_address(accounts@, program_id@)),
                Err(e) => withdraw_accounts_rejection(
                    accounts@,
                    vault_address(accounts@, program_id@),
                ) == Some(e),
            },
    {
        let derived = if accounts.len() == 3 {
            find_vault_address(&accounts[0].key, program_id)
        } else {
            None
        };
        WithdrawAccounts::with_address(accounts, derived)
    }
}

/// A Withdraw from an empty vault is refused whatever address was derived:
/// as `PreconditionFailed` where the owner signed and the vault belongs to
/// the value-transfer service, and as `Unauthorized` otherwise.
pub proof fn lemma_withdraw_refuses_empty_vault(
    accounts: Seq<Account>,
    derived: Option<(Seq<u8>, u8)>,
)
    requires
        accounts.len() == 3,
        accounts[1].lamports == 0,
    ensures
        withdraw_accounts_rejection(accounts, derived) == Some(
            if accounts[0].is_signer && accounts[1].owner@ == system_program_id() {
                CustodyError::PreconditionFailed
            } else {
                CustodyError::Unauthorized
            },
        ),
{
}

/// A Withdraw bound to the accounts as they stand.
#[derive(Clone, Copy, Debug, PartialEq, Eq)]
pub struct Withdraw<'a> {
    pub accounts: WithdrawAccounts<'a>,
}

impl<'a> Withdraw<'a> {
    /// Validates a Withdraw, given the address derived for the owner's
    /// vault.
    pub fn with_address(accounts: &'a [Account], derived: Option<(Pubkey, u8)>) -> (r: Result<
        Withdraw<'a>,
        CustodyError,
    >)
        ensures
            match r {
                Ok(withdraw) => withdraw_accounts_rejection(accounts@, derived_view(derived))
                    is None && withdraw.accounts.binds(accounts@, derived_view(derived)),
                Err(e) => withdraw_accounts_rejection(accounts@, derived_view(derived)) == Some(e),
            },
    {
        match WithdrawAccounts::with_address(accounts, derived) {
            Ok(accounts) => Ok(Withdraw { accounts }),
            Err(e) => Err(e),
        }
    }

    /// Validates a Withdraw.
    pub fn try_from(accounts: &'a [Account], program_id: &Pubkey) -> (r: Result<
        Withdraw<'a>,
        CustodyError,
    >)
        ensures
            match r {
                Ok(withdraw) => withdraw_accounts_rejection(
                    accounts@,
                    vault_address(accounts@, program_id@),
                ) is None && withdraw.accounts.binds(
                    accounts@,
                    vault_address(accounts@, program_id@),
                ),
                Err(e) => withdraw_accounts_rejection(
                    accounts@,
                    vault_address(accounts@, program_id@),
                ) == Some(e),
            },
    {
        match WithdrawAccounts::try_from(accounts, program_id) {
            Ok(accounts) => Ok(Withdraw { accounts }),
            Err(e) => Err(e),
        }
    }

    /// Names the one sub-operation of a Withdraw: everything the vault
    /// holds goes to the owner, signed for the vault.
    pub fn process(&self) -> (r: Invocation)
        ensures
            r@ == signed(
                Instruction::Transfer {
                    from: self.accounts.vault.key,
                    to: self.accounts.owner.key,
                    lamports: self.accounts.vault.lamports,
                },
                vault_signer_seeds(self.accounts.owner.key@, self.accounts.bumps@[0]),
            ),
    {
        Invocation {
            instruction: Instruction::Transfer {
                from: self.accounts.vault.key,
                to: self.accounts.owner.key,
                lamports: self.accounts.vault.lamports,
            },
            signer: Some(vault_signer(&self.accounts.owner.key, self.accounts.bumps[0])),
        }
    }
}

} // verus!
