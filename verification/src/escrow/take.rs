//! Take: the taker pays the maker in asset B, receives everything the
//! escrow holds of asset A, and the escrow is closed.

use vstd::prelude::*;
use crate::account::{same_key, Account, Pubkey};
use crate::address::{escrow_signer, escrow_signer_seeds};
use crate::error::CustodyError;
use crate::invoke::{signed, step_view, unsigned, Instruction, Invocation, Step, StepView};
use crate::state::{load_outcome, Escrow};
use crate::token::{found, holder_balance, mint_decimals, read_holder_balance, read_mint_decimals};

verus! {

/// The accounts of Take by role, in the order in which the instruction
/// lists them.
#[derive(Clone, Copy, Debug, PartialEq, Eq)]
pub struct TakeAccounts<'a> {
    pub taker: &'a Account,
    pub maker: &'a Account,
    pub escrow: &'a Account,
    pub mint_a: &'a Account,
    pub mint_b: &'a Account,
    pub vault: &'a Account,
    pub taker_ata_a: &'a Account,
    pub taker_ata_b: &'a Account,
    pub maker_ata_b: &'a Account,
    pub system_program: &'a Account,
    pub token_program: &'a Account,
    pub associated_token_program: &'a Account,
}

/// Why `accounts` cannot be bound to the roles of Take, if they cannot; the
/// checks apply in this order.
pub open spec fn take_rejection(accounts: Seq<Account>, program_id: Seq<u8>) -> Option<
    CustodyError,
> {
    if accounts.len() != 12 {
        Some(CustodyError::NotFound)
    } else if !accounts[0].is_signer {
        Some(CustodyError::Unauthorized)
    } else if accounts[2].owner@ != program_id {
        Some(CustodyError::Unauthorized)
    } else {
        match load_outcome(accounts[2].data@) {
            Err(e) => Some(e),
            Ok(terms) => if terms.maker != accounts[1].key@ {
                Some(CustodyError::Unauthorized)
            } else if terms.mint_a != accounts[3].key@ || terms.mint_b != accounts[4].key@ {
                Some(CustodyError::Unauthorized)
            } else {
                None
            },
        }
    }
}

impl<'a> TakeAccounts<'a> {
    /// Each role is the account at its position in `accounts`.
    pub open spec fn binds(self, accounts: Seq<Account>) -> bool {
        &&& accounts.len() == 12
        &&& *self.taker == accounts[0]
        &&& *self.maker == accounts[1]
        &&& *self.escrow == accounts[2]
        &&& *self.mint_a == accounts[3]
        &&& *self.mint_b == accounts[4]
        &&& *self.vault == accounts[5]
        &&& *self.taker_ata_a == accounts[6]
        &&& *self.taker_ata_b == accounts[7]
        &&& *self.maker_ata_b == accounts[8]
        &&& *self.system_program == accounts[9]
        &&& *self.token_program == accounts[10]
        &&& *self.associated_token_program == accounts[11]
    }

    /// Names the twelve accounts of Take by their positions, without asking
    /// anything of them. This is how an instruction that is under way looks
    /// at its accounts again after the runtime has carried out a step.
    pub fn by_position(accounts: &'a [Account]) -> (r: Option<TakeAccounts<'a>>)
        ensures
            match r {
                Some(bound) => bound.binds(accounts@),
                None => accounts@.len() != 12,
            },
    {
        if accounts.len() != 12 {
            return None;
        }
        Some(
            TakeAccounts {
                taker: &accounts[0],
                maker: &accounts[1],
                escrow: &accounts[2],
                mint_a: &accounts[3],
                mint_b: &accounts[4],
                vault: &accounts[5],
                taker_ata_a: &accounts[6],
                taker_ata_b: &accounts[7],
                maker_ata_b: &accounts[8],
                system_program: &accounts[9],
                token_program: &accounts[10],
                associated_token_program: &accounts[11],
            },
        )
    }

    /// Binds the twelve accounts of Take to their roles. The taker must have
    /// signed, the escrow must belong to this program, and the terms it
    /// persists must name the maker and the two assets that were supplied.
    pub fn try_from(accounts: &'a [Account], program_id: &Pubkey) -> (r: Result<
        TakeAccounts<'a>,
        CustodyError,
    >)
        ensures
            match r {
                Ok(bound) => take_rejection(accounts@, program_id@) is None && bound.binds(
                    accounts@,
                ),
                Err(e) => take_rejection(accounts@, program_id@) == Some(e),
            },
    {
        let bound = match TakeAccounts::by_position(accounts) {
            Some(bound) => bound,
            None => {
                return Err(CustodyError::NotFound);
            },
        };
        if !bound.taker.is_signer {
            return Err(CustodyError::Unauthorized);
        }
        if !bound.escrow.is_owned_by(program_id) {
            return Err(CustodyError::Unauthorized);
        }
        let terms = match Escrow::load(bound.escrow.data.as_slice()) {
            Ok(terms) => terms,
            Err(e) => {
                return Err(e);
            },
        };
        if !same_key(&terms.maker, &bound.maker.key) {
            return Err(CustodyError::Unauthorized);
        }
        if !same_key(&terms.mint_a, &bound.mint_a.key) || !same_key(
            &terms.mint_b,
            &bound.mint_b.key,
        ) {
            return Err(CustodyError::Unauthorized);
        }
        Ok(bound)
    }
}

/// How far a Take has come. The number and bump of the escrow are read once,
/// before the first sub-operation, and carried along.
#[derive(Clone, Copy, Debug, PartialEq, Eq, Structural)]
pub enum TakeStage {
    /// Nothing has been done.
    Start,
    /// The taker has paid the maker in asset B.
    MakerPaid { seed: u64, bump: u8 },
    /// Asset A has left custody for the taker.
    VaultReleased { seed: u64, bump: u8 },
    /// The custody holder is closed.
    VaultClosed { seed: u64, bump: u8 },
    /// The escrow account has given up its value: the escrow is closed.
    Finished,
}

/// The next step of a Take at `stage`, with the accounts as they stand, and
/// the stage that follows it.
///
/// 1. The taker pays `receive` of asset B to the maker, on the taker's own
///    signature.
/// 2. The custody holder's whole live balance of asset A goes to the taker,
///    signed for the escrow.
/// 3. The custody holder is closed in favour of the maker, signed for the
///    escrow.
/// 4. The escrow account's own value goes to the maker, signed for the
///    escrow.
pub open spec fn take_step(a: TakeAccounts, stage: TakeStage) -> Result<
    (StepView, TakeStage),
    CustodyError,
> {
    match stage {
        TakeStage::Start => match load_outcome(a.escrow.data@) {
            Err(e) => Err(e),
            Ok(terms) => match found(mint_decimals(a.mint_b.data@)) {
                Err(e) => Err(e),
                Ok(decimals) => Ok(
                    (
                        StepView::Invoke(
                            unsigned(
                                Instruction::TransferChecked {
                                    from: a.taker_ata_b.key,
                                    mint: a.mint_b.key,
                                    to: a.maker_ata_b.key,
                                    authority: a.taker.key,
                                    amount: terms.receive,
                                    decimals,
                                },
                            ),
                        ),
                        TakeStage::MakerPaid { seed: terms.seed, bump: terms.bump },
                    ),
                ),
            },
        },
        TakeStage::MakerPaid { seed, bump } => match found(holder_balance(a.vault.data@)) {
            Err(e) => Err(e),
            Ok(amount) => match found(mint_decimals(a.mint_a.data@)) {
                Err(e) => Err(e),
                Ok(decimals) => Ok(
                    (
                        StepView::Invoke(
                            signed(
                                Instruction::TransferChecked {
                                    from: a.vault.key,
                                    mint: a.mint_a.key,
                                    to: a.taker_ata_a.key,
                                    authority: a.escrow.key,
                                    amount,
                                    decimals,
                                },
                                escrow_signer_seeds(a.maker.key@, seed, bump),
                            ),
                        ),
                        TakeStage::VaultReleased { seed, bump },
                    ),
                ),
            },
        },
        TakeStage::VaultReleased { seed, bump } => Ok(
            (
                StepView::Invoke(
                    signed(
                        Instruction::CloseAccount {
                            account: a.vault.key,
                            destination: a.maker.key,
                            authority: a.escrow.key,
                        },
                        escrow_signer_seeds(a.maker.key@, seed, bump),
                    ),
                ),
                TakeStage::VaultClosed { seed, bump },
            ),
        ),
        TakeStage::VaultClosed { seed, bump } => Ok(
            (
                StepView::Invoke(
                    signed(
                        Instruction::Transfer {
                            from: a.escrow.key,
                            to: a.maker.key,
                            lamports: a.escrow.lamports,
                        },
                        escrow_signer_seeds(a.maker.key@, seed, bump),
                    ),
                ),
                TakeStage::Finished,
            ),
        ),
        TakeStage::Finished => Ok((StepView::Done, TakeStage::Finished)),
    }
}

/// How many sub-operations of a Take lie behind `stage`.
pub open spec fn take_rank(stage: TakeStage) -> nat {
    match stage {
        TakeStage::Start => 0,
        TakeStage::MakerPaid { .. } => 1,
        TakeStage::VaultReleased { .. } => 2,
        TakeStage::VaultClosed { .. } => 3,
        TakeStage::Finished => 4,
    }
}

/// A Take is refused as `Unauthorized` whenever the escrow account holds a
/// record whose maker, asset A or asset B is not the account supplied in
/// that role. Nothing is asked of the runtime for a Take that is refused.
pub proof fn lemma_take_refuses_other_terms(accounts: Seq<Account>, program_id: Seq<u8>)
    requires
        accounts.len() == 12,
        load_outcome(accounts[2].data@) matches Ok(terms) && (terms.maker != accounts[1].key@
            || terms.mint_a != accounts[3].key@ || terms.mint_b != accounts[4].key@),
    ensures
        take_rejection(accounts, program_id) == Some(CustodyError::Unauthorized),
{
}

/// A Take is refused as `Unauthorized` once the escrow account no longer
/// belongs to this program, as is the case after the escrow was closed: an
/// escrow is taken or refunded at most once.
pub proof fn lemma_take_refuses_closed_escrow(accounts: Seq<Account>, program_id: Seq<u8>)
    requires
        accounts.len() == 12,
        accounts[2].owner@ != program_id,
    ensures
        take_rejection(accounts, program_id) == Some(CustodyError::Unauthorized),
{
}

/// Every step of a Take that is not refused moves exactly one stage on and
/// names a sub-operation, until the last stage, which names none. So a Take
/// names four sub-operations at most, the payment to the maker first, and
/// never writes to an account itself.
pub proof fn lemma_take_advances(a: TakeAccounts, stage: TakeStage)
    ensures
        match take_step(a, stage) {
            Ok((step, next)) => if stage == TakeStage::Finished {
                step == StepView::Done && next == TakeStage::Finished
            } else {
                step is Invoke && take_rank(next) == take_rank(stage) + 1
            },
            Err(e) => take_rank(stage) <= 1,
        },
{
}

/// A Take bound to the accounts as they stand.
#[derive(Clone, Copy, Debug, PartialEq, Eq)]
pub struct Take<'a> {
    pub accounts: TakeAccounts<'a>,
}

impl<'a> Take<'a> {
    /// Binds a Take to its accounts.
    pub fn try_from(accounts: &'a [Account], program_id: &Pubkey) -> (r: Result<
        Take<'a>,
        CustodyError,
    >)
        ensures
            match r {
                Ok(take) => take_rejection(accounts@, program_id@) is None && take.accounts.binds(
                    accounts@,
                ),
                Err(e) => take_rejection(accounts@, program_id@) == Some(e),
            },
    {
        match TakeAccounts::try_from(accounts, program_id) {
            Ok(accounts) => Ok(Take { accounts }),
            Err(e) => Err(e),
        }
    }

    /// Names the next sub-operation of this Take at `stage` and the stage
    /// that follows it. The runtime carries the sub-operation out and calls
    /// again with the accounts as they then stand, until the step is `Done`.
    pub fn process(&self, stage: TakeStage) -> (r: Result<(Step, TakeStage), CustodyError>)
        ensures
            step_view(r) == take_step(self.accounts, stage),
    {
        let a = &self.accounts;
        match stage {
            TakeStage::Start => {
                let terms = match Escrow::load(a.escrow.data.as_slice()) {
                    Ok(terms) => terms,
                    Err(e) => {
                        return Err(e);
                    },
                };
                let decimals = match read_mint_decimals(a.mint_b.data.as_slice()) {
                    Ok(decimals) => decimals,
                    Err(e) => {
                        return Err(e);
                    },
                };
                let instruction = Instruction::TransferChecked {
                    from: a.taker_ata_b.key,
                    mint: a.mint_b.key,
                    to: a.maker_ata_b.key,
                    authority: a.taker.key,
                    amount: terms.receive,
                    decimals,
                };
                Ok(
                    (
                        Step::Invoke(Invocation { instruction, signer: None }),
                        TakeStage::MakerPaid { seed: terms.seed, bump: terms.bump[0] },
                    ),
                )
            },
            TakeStage::MakerPaid { seed, bump } => {
                let amount = match read_holder_balance(a.vault.data.as_slice()) {
                    Ok(amount) => amount,
                    Err(e) => {
                        return Err(e);
                    },
                };
                let decimals = match read_mint_decimals(a.mint_a.data.as_slice()) {
                    Ok(decimals) => decimals,
                    Err(e) => {
                        return Err(e);
                    },
                };
                let instruction = Instruction::TransferChecked {
                    from: a.vault.key,
                    mint: a.mint_a.key,
                    to: a.taker_ata_a.key,
                    authority: a.escrow.key,
                    amount,
                    decimals,
                };
                let signer = escrow_signer(&a.maker.key, seed, bump);
                Ok(
                    (
                        Step::Invoke(Invocation { instruction, signer: Some(signer) }),
                        TakeStage::VaultReleased { seed, bump },
                    ),
                )
            },
            TakeStage::VaultReleased { seed, bump } => {
                let instruction = Instruction::CloseAccount {
                    account: a.vault.key,
                    destination: a.maker.key,
                    authority: a.escrow.key,
                };
                let signer = escrow_signer(&a.maker.key, seed, bump);
                Ok(
                    (
                        Step::Invoke(Invocation { instruction, signer: Some(signer) }),
                        TakeStage::VaultClosed { seed, bump },
                    ),
                )
            },
            TakeStage::VaultClosed { seed, bump } => {
                let instruction = Instruction::Transfer {
                    from: a.escrow.key,
                    to: a.maker.key,
                    lamports: a.escrow.lamports,
                };
                let signer = escrow_signer(&a.maker.key, seed, bump);
                Ok(
                    (
                        Step::Invoke(Invocation { instruction, signer: Some(signer) }),
                        TakeStage::Finished,
                    ),
                )
            },
            TakeStage::Finished => Ok((Step::Done, TakeStage::Finished)),
        }
    }
}

} // verus!
