//! What holds of an escrow across its instructions: Make opens it, and Take
//! or Refund, whichever comes first, closes it.

use vstd::prelude::*;
use crate::account::Account;
use crate::address::escrow_signer_seeds;
use crate::error::CustodyError;
use crate::escrow::make::{make_terms, Make};
use crate::escrow::refund::{refund_rejection, refund_step, RefundAccounts, RefundStage};
use crate::escrow::take::{take_rejection, take_step, TakeAccounts, TakeStage};
use crate::invoke::{signed, unsigned, Instruction, StepView};
use crate::state::{lemma_escrow_roundtrip, load_outcome, stored, EscrowTerms, ESCROW_LEN};
use crate::token::{holder_balance, mint_decimals};

verus! {

/// The escrow account holds the record that `make` wrote with `bump`, and
/// still belongs to the program.
pub open spec fn opened_by(escrow: Account, make: Make, bump: u8, program_id: Seq<u8>) -> bool {
    &&& escrow.owner@ == program_id
    &&& exists|before: Seq<u8>|
        before.len() >= ESCROW_LEN && escrow.data@ == #[trigger] stored(
            before,
            make_terms(make, bump),
        )
}

/// An escrow that Make opened persists the terms of that Make.
pub proof fn lemma_opened_escrow_persists_terms(
    escrow: Account,
    make: Make,
    bump: u8,
    program_id: Seq<u8>,
)
    requires
        opened_by(escrow, make, bump, program_id),
    ensures
        load_outcome(escrow.data@) == Ok::<EscrowTerms, CustodyError>(make_terms(make, bump)),
{
    let before = choose|before: Seq<u8>|
        before.len() >= ESCROW_LEN && escrow.data@ == #[trigger] stored(
            before,
            make_terms(make, bump),
        );
    lemma_escrow_roundtrip(
        make_terms(make, bump),
        before.subrange(ESCROW_LEN as int, before.len() as int),
    );
}

/// A Take against an escrow that Make opened is accepted from any taker who
/// signed, as long as the maker and the two assets supplied are those of the
/// Make. Its first step then pays the maker exactly what the Make asked for,
/// in asset B, from the taker's holder and on the taker's own signature; and
/// its second step releases exactly what custody holds of asset A at that
/// moment, signed for the escrow with the number of the Make and the bump
/// of its address.
pub proof fn lemma_take_settles_what_make_opened(
    accounts: Seq<Account>,
    bound: TakeAccounts,
    make: Make,
    bump: u8,
    program_id: Seq<u8>,
)
    requires
        bound.binds(accounts),
        bound.taker.is_signer,
        opened_by(*bound.escrow, make, bump, program_id),
        bound.maker.key@ == make.accounts.maker.key@,
        bound.mint_a.key@ == make.accounts.mint_a.key@,
        bound.mint_b.key@ == make.accounts.mint_b.key@,
    ensures
        take_rejection(accounts, program_id) is None,
        mint_decimals(bound.mint_b.data@) matches Some(decimals) ==> take_step(
            bound,
            TakeStage::Start,
        ) == Ok::<(StepView, TakeStage), CustodyError>(
            (
                StepView::Invoke(
                    unsigned(
                        Instruction::TransferChecked {
                            from: bound.taker_ata_b.key,
                            mint: bound.mint_b.key,
                            to: bound.maker_ata_b.key,
                            authority: bound.taker.key,
                            amount: make.data.receive,
                            decimals,
                        },
                    ),
                ),
                TakeStage::MakerPaid { seed: make.data.seed, bump },
            ),
        ),
        holder_balance(bound.vault.data@) matches Some(amount) ==> (mint_decimals(
            bound.mint_a.data@,
        ) matches Some(decimals) ==> take_step(
            bound,
            TakeStage::MakerPaid { seed: make.data.seed, bump },
        ) == Ok::<(StepView, TakeStage), CustodyError>(
            (
                StepView::Invoke(
                    signed(
                        Instruction::TransferChecked {
                            from: bound.vault.key,
                            mint: bound.mint_a.key,
                            to: bound.taker_ata_a.key,
                            authority: bound.escrow.key,
                            amount,
                            decimals,
                        },
                        escrow_signer_seeds(make.accounts.maker.key@, make.data.seed, bump),
                    ),
                ),
                TakeStage::VaultReleased { seed: make.data.seed, bump },
            ),
        )),
{
    lemma_opened_escrow_persists_terms(*bound.escrow, make, bump, program_id);
}

/// A Refund against an escrow that Make opened is accepted from the maker
/// who signed, for the asset of the Make. Its first step then returns to the
/// maker exactly what custody holds of asset A, signed for the escrow with
/// the number of the Make and the bump of its address.
pub proof fn lemma_refund_returns_what_make_opened(
    accounts: Seq<Account>,
    bound: RefundAccounts,
    make: Make,
    bump: u8,
    program_id: Seq<u8>,
)
    requires
        bound.binds(accounts),
        bound.maker.is_signer,
        opened_by(*bound.escrow, make, bump, program_id),
        bound.maker.key@ == make.accounts.maker.key@,
        bound.mint_a.key@ == make.accounts.mint_a.key@,
    ensures
        refund_rejection(accounts, program_id) is None,
        holder_balance(bound.vault.data@) matches Some(amount) ==> (mint_decimals(
            bound.mint_a.data@,
        ) matches Some(decimals) ==> refund_step(bound, RefundStage::Start) == Ok::<
            (StepView, RefundStage),
            CustodyError,
        >(
            (
                StepView::Invoke(
                    signed(
                        Instruction::TransferChecked {
                            from: bound.vault.key,
                            mint: bound.mint_a.key,
                            to: bound.maker_ata_a.key,
                            authority: bound.escrow.key,
                            amount,
                            decimals,
                        },
                        escrow_signer_seeds(make.accounts.maker.key@, make.data.seed, bump),
                    ),
                ),
                RefundStage::VaultReleased { seed: make.data.seed, bump },
            ),
        )),
{
    lemma_opened_escrow_persists_terms(*bound.escrow, make, bump, program_id);
}

} // verus!
