//! The sub-operations that an instruction asks the runtime to carry out.
//!
//! The library never performs a sub-operation. It names the next one, the
//! runtime carries it out, and the library is shown the accounts again.

use vstd::prelude::*;
use crate::account::Pubkey;
use crate::address::Signer;
use crate::error::CustodyError;

verus! {

/// One request to a service. Accounts are named by their addresses.
#[derive(Clone, Copy, Debug, PartialEq, Eq)]
pub enum Instruction {
    /// Account-creation service: create `to` with `space` bytes of storage,
    /// owned by `owner` and funded with `lamports` from `from`.
    CreateAccount { from: Pubkey, to: Pubkey, lamports: u64, space: u64, owner: Pubkey },
    /// Associated-account-creation service: create `account`, the holder of
    /// asset `mint` that belongs to `wallet`, paid for by `funding_account`.
    CreateAssociatedTokenAccount {
        funding_account: Pubkey,
        account: Pubkey,
        wallet: Pubkey,
        mint: Pubkey,
        system_program: Pubkey,
        token_program: Pubkey,
    },
    /// Token-transfer service: move `amount` of asset `mint`, which counts
    /// `decimals` decimal places, from holder `from` to holder `to`, on the
    /// word of `authority`.
    TransferChecked {
        from: Pubkey,
        mint: Pubkey,
        to: Pubkey,
        authority: Pubkey,
        amount: u64,
        decimals: u8,
    },
    /// Token-transfer service: close holder `account` and hand the value it
    /// held to `destination`, on the word of `authority`.
    CloseAccount { account: Pubkey, destination: Pubkey, authority: Pubkey },
    /// Value-transfer service: move `lamports` from `from` to `to`.
    Transfer { from: Pubkey, to: Pubkey, lamports: u64 },
}

/// A request to a service, with the capability under which the program
/// signs for a derived address, where the request needs one.
#[derive(Clone, Debug, PartialEq, Eq)]
pub struct Invocation {
    pub instruction: Instruction,
    pub signer: Option<Signer>,
}

/// An invocation as plain values: the request and the signing seeds.
pub struct InvocationView {
    pub instruction: Instruction,
    pub signer: Option<Seq<Seq<u8>>>,
}

impl View for Invocation {
    type V = InvocationView;

    open spec fn view(&self) -> InvocationView {
        InvocationView {
            instruction: self.instruction,
            signer: match self.signer {
                Some(signer) => Some(signer@),
                None => None,
            },
        }
    }
}

/// A request that the transaction's own signers authorize.
pub open spec fn unsigned(instruction: Instruction) -> InvocationView {
    InvocationView { instruction, signer: None }
}

/// A request for which the program signs with `seeds`.
pub open spec fn signed(instruction: Instruction, seeds: Seq<Seq<u8>>) -> InvocationView {
    InvocationView { instruction, signer: Some(seeds) }
}

/// What the runtime is to do next for an instruction that takes several
/// sub-operations.
#[derive(Clone, Debug, PartialEq, Eq)]
pub enum Step {
    /// Carry out this sub-operation.
    Invoke(Invocation),
    /// Replace the storage of `account` by `data`.
    Store { account: Pubkey, data: Vec<u8> },
    /// Nothing is left to do.
    Done,
}

/// A step as plain values.
pub enum StepView {
    Invoke(InvocationView),
    Store { account: Pubkey, data: Seq<u8> },
    Done,
}

impl View for Step {
    type V = StepView;

    open spec fn view(&self) -> StepView {
        match *self {
            Step::Invoke(invocation) => StepView::Invoke(invocation@),
            Step::Store { account, data } => StepView::Store { account, data: data@ },
            Step::Done => StepView::Done,
        }
    }
}

/// The outcome of one call of a step function as plain values: the step and
/// the stage that follows it, or the rejection.
pub open spec fn step_view<S>(r: Result<(Step, S), CustodyError>) -> Result<
    (StepView, S),
    CustodyError,
> {
    match r {
        Ok((step, next)) => Ok((step@, next)),
        Err(e) => Err(e),
    }
}

/// The outcome of a single-step instruction as plain values.
pub open spec fn invocation_view(r: Result<Invocation, CustodyError>) -> Result<
    InvocationView,
    CustodyError,
> {
    match r {
        Ok(invocation) => Ok(invocation@),
        Err(e) => Err(e),
    }
}

} // verus!
