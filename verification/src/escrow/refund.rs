//! Refund: the maker takes back everything the escrow holds of asset A, and
//! the escrow is closed.

use vstd::prelude::*;
use crate::account::{same_key, Account, Pubkey};
use crate::address::{escrow_signer, escrow_signer_seeds};
use crate::error::CustodyError;
use crate::invoke::{signed, step_view, Instruction, Invocation, Step, StepView};
use crate::state::{load_outcome, Escrow};
use crate::token::{found, holder_balance, mint_decimals, read_holder_balance, read_mint_decimals};

verus! {

/// The accounts of Refund by role, in the order in which the instruction
/// lists them.
#[derive(Clone, Copy, Debug, PartialEq, Eq)]
pub struct RefundAccounts<'a> {
    pub maker: &'a Account,
    pub escrow: &'a Account,
    pub mint_a: &'a Account,
    pub vault: &'a Account,
    pub maker_ata_a: &'a Account,
    pub system_program: &'a Account,
    pub token_program: &'a Account,
}

/// Why `accounts` cannot be bound to the roles of Refund, if they cannot;
/// the checks apply in this order.
pub open spec fn refund_rejection(accounts: Seq<Account>, program_id: Seq<u8>) -> Option<
    CustodyError,
> {
    if accounts.len() != 7 {
        Some(CustodyError::NotFound)
    } else if !accounts[0].is_signer {
        Some(CustodyError::Unauthorized)
    } else if accounts[1].owner@ != program_id {
        Some(CustodyError::Unauthorized)
    } else {
        match load_outcome(accounts[1].data@) {
            Err(e) => Some(e),
            Ok(terms) => if terms.maker != accounts[0].key@ || terms.mint_a != accounts[2].key@ {
                Some(CustodyError::Unauthorized)
            } else {
                None
            },
        }
    }
}

impl<'a> RefundAccounts<'a> {
    /// Each role is the account at its position in `accounts`.
    pub open spec fn binds(self, accounts: Seq<Account>) -> bool {
        &&& accounts.len() == 7
        &&& *self.maker == accounts[0]
        &&& *self.escrow == accounts[1]
        &&& *self.mint_a == accounts[2]
        &&& *self.vault == accounts[3]
        &&& *self.maker_ata_a == accounts[4]
        &&& *self.system_program == accounts[5]
        &&& *self.token_program == accounts[6]
    }

    /// Names the seven accounts of Refund by their positions, without
    /// asking anything of them. This is how an instruction that is under way
    /// looks at its accounts again after the runtime has carried out a step.
    pub fn by_position(accounts: &'a [Account]) -> (r: Option<RefundAccounts<'a>>)
        ensures
            match r {
                Some(bound) => bound.binds(accounts@),
                None => accounts@.len() != 7,
            },
    {
        if accounts.len() != 7 {
            return None;
        }
        Some(
            RefundAccounts {
                maker: &accounts[0],
                escrow: &accounts[1],
                mint_a: &accounts[2],
                vault: &accounts[3],
                maker_ata_a: &accounts[4],
                system_program: &accounts[5],
                token_program: &accounts[6],
            },
        )
    }

    /// Binds the seven accounts of Refund to their roles. The maker must
    /// have signed, the escrow must belong to this program, and the terms it
    /// persists must name the maker and the asset that were supplied.
    pub fn try_from(accounts: &'a [Account], program_id: &Pubkey) -> (r: Result<
        RefundAccounts<'a>,
        CustodyError,
    >)
        ensures
            match r {
                Ok(bound) => refund_rejection(accounts@, program_id@) is None && bound.binds(
                    accounts@,
                ),
                Err(e) => refund_rejection(accounts@, program_id@) == Some(e),
            },
    {
        let bound = match RefundAccounts::by_position(accounts) {
            Some(bound) => bound,
            None => {
                return Err(CustodyError::NotFound);
            },
        };
        if !bound.maker.is_signer {
            return Err(CustodyError::Unauthorized);
        }
        if !bound.escrow.is_owned_by(program_id) {
            return Err(CustodyError::Unauthorized);
        }
        let terms = match Escrow::load(bound.escrow.data.as_slice()) {
            Ok(terms) => terms,
            Err(e) => {
                return Err(e);
            },
        };
        if !same_key(&terms.maker, &bound.maker.key) || !same_key(
            &terms.mint_a,
            &bound.mint_a.key,
        ) {
            return Err(CustodyError::Unauthorized);
        }
        Ok(bound)
    }
}

/// How far a Refund has come. The number and bump of the escrow are read
/// once, before the first sub-operation, and carried along.
#[derive(Clone, Copy, Debug, PartialEq, Eq, Structural)]
pub enum RefundStage {
    /// Nothing has been done.
    Start,
    /// Asset A has left custody for the maker.
    VaultReleased { seed: u64, bump: u8 },
    /// The custody holder is closed.
    VaultClosed { seed: u64, bump: u8 },
    /// The escrow account has given up its value: the escrow is closed.
    Finished,
}

/// The next step of a Refund at `stage`, with the accounts as they stand,
/// and the stage that follows it.
///
/// 1. The custody holder's whole live balance of asset A goes back to the
///    maker, signed for the escrow.
/// 2. The custody holder is closed in favour of the maker, signed for the
///    escrow.
/// 3. The escrow account's own value goes to the maker, signed for the
///    escrow.
pub open spec fn refund_step(a: RefundAccounts, stage: RefundStage) -> Result<
    (StepView, RefundStage),
    CustodyError,
> {
    match stage {
        RefundStage::Start => match load_outcome(a.escrow.data@) {
            Err(e) => Err(e),
            Ok(terms) => match found(holder_balance(a.vault.data@)) {
                Err(e) => Err(e),
                Ok(amount) => match found(mint_decimals(a.mint_a.data@)) {
                    Err(e) => Err(e),
                    Ok(decimals) => Ok(
                        (
                            StepView::Invoke(
                                signed(
                                    Instruction::TransferChecked {
                                        from: a.vault.key,
                                        mint: a.mint_a.key,
                                        to: a.maker_ata_a.key,
                                        authority: a.escrow.key,
                                        amount,
                                        decimals,
                                    },
                                    escrow_signer_seeds(a.maker.key@, terms.seed, terms.bump),
                                ),
                            ),
                            RefundStage::VaultReleased { seed: terms.seed, bump: terms.bump },
                        ),
                    ),
                },
            },
        },
        RefundStage::VaultReleased { seed, bump } => Ok(
            (
                StepView::Invoke(
                    signed(
                        Instruction::CloseAccount {
                            account: a.vault.key,
                            destination: a.maker.key,
                            authority: a.escrow.key,
                        },
                        escrow_signer_seeds(a.maker.key@, seed, bump),
                    ),
                ),
                RefundStage::VaultClosed { seed, bump },
            ),
        ),
        RefundStage::VaultClosed { seed, bump } => Ok(
            (
                StepView::Invoke(
                    signed(
                        Instruction::Transfer {
                            from: a.escrow.key,
                            to: a.maker.key,
                            lamports: a.escrow.lamports,
                        },
                        escrow_signer_seeds(a.maker.key@, seed, bump),
                    ),
                ),
                RefundStage::Finished,
            ),
        ),
        RefundStage::Finished => Ok((StepView::Done, RefundStage::Finished)),
    }
}

/// How many sub-operations of a Refund lie behind `stage`.
pub open spec fn refund_rank(stage: RefundStage) -> nat {
    match stage {
        RefundStage::Start => 0,
        RefundStage::VaultReleased { .. } => 1,
        RefundStage::VaultClosed { .. } => 2,
        RefundStage::Finished => 3,
    }
}

/// A Refund is refused as `Unauthorized` whenever the escrow account holds
/// a record whose maker or asset A is not the account supplied in that
/// role. Nothing is asked of the runtime for a Refund that is refused.
pub proof fn lemma_refund_refuses_other_terms(accounts: Seq<Account>, program_id: Seq<u8>)
    requires
        accounts.len() == 7,
        load_outcome(accounts[1].data@) matches Ok(terms) && (terms.maker != accounts[0].key@
            || terms.mint_a != accounts[2].key@),
    ensures
        refund_rejection(accounts, program_id) == Some(CustodyError::Unauthorized),
{
}

/// A Refund is refused as `Unauthorized` once the escrow account no longer
/// belongs to this program, as is the case after the escrow was closed: an
/// escrow is taken or refunded at most once.
pub proof fn lemma_refund_refuses_closed_escrow(accounts: Seq<Account>, program_id: Seq<u8>)
    requires
        accounts.len() == 7,
        accounts[1].owner@ != program_id,
    ensures
        refund_rejection(accounts, program_id) == Some(CustodyError::Unauthorized),
{
}

/// Every step of a Refund that is not refused moves exactly one stage on
/// and names a sub-operation, until the last stage, which names none. Only
/// the first step can be refused.
pub proof fn lemma_refund_advances(a: RefundAccounts, stage: RefundStage)
    ensures
        match refund_step(a, stage) {
            Ok((step, next)) => if stage == RefundStage::Finished {
                step == StepView::Done && next == RefundStage::Finished
            } else {
                step is Invoke && refund_rank(next) == refund_rank(stage) + 1
            },
            Err(e) => stage == RefundStage::Start,
        },
{
}

/// A Refund bound to the accounts as they stand.
#[derive(Clone, Copy, Debug, PartialEq, Eq)]
pub struct Refund<'a> {
    pub accounts: RefundAccounts<'a>,
}

impl<'a> Refund<'a> {
    /// Binds a Refund to its accounts.
    pub fn try_from(accounts: &'a [Account], program_id: &Pubkey) -> (r: Result<
        Refund<'a>,
        CustodyError,
    >)
        ensures
            match r {
                Ok(refund) => refund_rejection(accounts@, program_id@) is None
                    && refund.accounts.binds(accounts@),
                Err(e) => refund_rejection(accounts@, program_id@) == Some(e),
            },
    {
        match RefundAccounts::try_from(accounts, program_id) {
            Ok(accounts) => Ok(Refund { accounts }),
            Err(e) => Err(e),
        }
    }

    /// Names the next sub-operation of this Refund at `stage` and the stage
    /// that follows it. The runtime carries the sub-operation out and calls
    /// again with the accounts as they then stand, until the step is `Done`.
    pub fn process(&self, stage: RefundStage) -> (r: Result<(Step, RefundStage), CustodyError>)
        ensures
            step_view(r) == refund_step(self.accounts, stage),
    {
        let a = &self.accounts;
        match stage {
            RefundStage::Start => {
                let terms = match Escrow::load(a.escrow.data.as_slice()) {
                    Ok(terms) => terms,
                    Err(e) => {
                        return Err(e);
                    },
                };
                let amount = match read_holder_balance(a.vault.data.as_slice()) {
                    Ok(amount) => amount,
                    Err(e) => {
                        return Err(e);
                    },
                };
                let decimals = match read_mint_decimals(a.mint_a.data.as_slice()) {
                    Ok(decimals) => decimals,
                    Err(e) => {
                        return Err(e);
                    },
                };
                let instruction = Instruction::TransferChecked {
                    from: a.vault.key,
                    mint: a.mint_a.key,
                    to: a.maker_ata_a.key,
                    authority: a.escrow.key,
                    amount,
                    decimals,
                };
                let signer = escrow_signer(&a.maker.key, terms.seed, terms.bump[0]);
                Ok(
                    (
                        Step::Invoke(Invocation { instruction, signer: Some(signer) }),
                        RefundStage::VaultReleased { seed: terms.seed, bump: terms.bump[0] },
                    ),
                )
            },
            RefundStage::VaultReleased { seed, bump } => {
                let instruction = Instruction::CloseAccount {
                    account: a.vault.key,
                    destination: a.maker.key,
                    authority: a.escrow.key,
                };
                let signer = escrow_signer(&a.maker.key, seed, bump);
                Ok(
                    (
                        Step::Invoke(Invocation { instruction, signer: Some(signer) }),
                        RefundStage::VaultClosed { seed, bump },
                    ),
                )
            },
            RefundStage::VaultClosed { seed, bump } => {
                let instruction = Instruction::Transfer {
                    from: a.escrow.key,
                    to: a.maker.key,
                    lamports: a.escrow.lamports,
                };
                let signer = escrow_signer(&a.maker.key, seed, bump);
                Ok(
                    (
                        Step::Invoke(Invocation { instruction, signer: Some(signer) }),
                        RefundStage::Finished,
                    ),
                )
            },
            RefundStage::Finished => Ok((Step::Done, RefundStage::Finished)),
        }
    }
}

} // verus!
