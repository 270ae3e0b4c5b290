//! Make: the maker opens an escrow, states what is asked in return, and
//! deposits asset A into custody.

use vstd::prelude::*;
use vstd::slice::slice_to_vec;
use crate::account::{same_key, Account, Pubkey};
use crate::address::{
    derived_view, escrow_seeds, escrow_signer, escrow_signer_seeds, find_escrow_address,
    is_derived, program_address,
};
use crate::bytes::{read_u64_le, u64_from_le};
use crate::error::CustodyError;
use crate::invoke::{signed, step_view, unsigned, Instruction, Invocation, Step, StepView};
use crate::programs::{
    associated_token_program, associated_token_program_id, system_program, system_program_id,
    token_program, token_program_id,
};
use crate::state::{
    lemma_escrow_roundtrip, load_outcome, stored, Escrow, EscrowTerms, ESCROW_LEN,
};
use crate::token::{found, mint_decimals, read_mint_decimals};

verus! {

/// The payload of Make.
///
/// | bytes    | field     |
/// |----------|-----------|
/// | `0..8`   | `seed`    |
/// | `8..16`  | `receive` |
/// | `16..24` | `amount`  |
#[derive(Clone, Copy, Debug, PartialEq, Eq, Structural)]
pub struct MakeInstructionData {
    /// The number under which the maker opens the escrow.
    pub seed: u64,
    /// How much of asset B the maker asks for.
    pub receive: u64,
    /// How much of asset A the maker deposits.
    pub amount: u64,
}

/// What decoding a Make payload yields. Bytes after the 24th are ignored.
pub open spec fn decode_make(data: Seq<u8>) -> Result<MakeInstructionData, CustodyError> {
    if data.len() < 24 {
        Err(CustodyError::MalformedInput)
    } else {
        let receive = u64_from_le(data.subrange(8, 16));
        let amount = u64_from_le(data.subrange(16, 24));
        if receive == 0 || amount == 0 {
            Err(CustodyError::MalformedInput)
        } else {
            Ok(MakeInstructionData { seed: u64_from_le(data.subrange(0, 8)), receive, amount })
        }
    }
}

impl MakeInstructionData {
    /// The length of the payload.
    pub const LEN: usize = 24;

    /// Decodes the payload of Make. A payload shorter than 24 bytes is
    /// rejected, and so is one that asks for nothing or deposits nothing.
    pub fn try_from(data: &[u8]) -> (r: Result<MakeInstructionData, CustodyError>)
        ensures
            r == decode_make(data@),
    {
        if data.len() < 24 {
            return Err(CustodyError::MalformedInput);
        }
        let seed = read_u64_le(data, 0);
        let receive = read_u64_le(data, 8);
        let amount = read_u64_le(data, 16);
        if receive == 0 || amount == 0 {
            return Err(CustodyError::MalformedInput);
        }
        Ok(MakeInstructionData { seed, receive, amount })
    }
}

/// The accounts of Make by role, in the order in which the instruction lists
/// them.
#[derive(Clone, Copy, Debug, PartialEq, Eq)]
pub struct MakeAccounts<'a> {
    pub maker: &'a Account,
    pub escrow: &'a Account,
    pub mint_a: &'a Account,
    pub mint_b: &'a Account,
    pub maker_ata_a: &'a Account,
    pub vault: &'a Account,
    pub token_program: &'a Account,
    pub associated_token_program: &'a Account,
    pub system_program: &'a Account,
}

/// Why `accounts` cannot be bound to the roles of Make, if they cannot; the
/// checks apply in this order.
pub open spec fn make_accounts_rejection(accounts: Seq<Account>) -> Option<CustodyError> {
    if accounts.len() != 9 {
        Some(CustodyError::NotFound)
    } else if !accounts[0].is_signer {
        Some(CustodyError::Unauthorized)
    } else if accounts[6].key@ != token_program_id() {
        Some(CustodyError::Unauthorized)
    } else if accounts[7].key@ != associated_token_program_id() {
        Some(CustodyError::Unauthorized)
    } else if accounts[8].key@ != system_program_id() {
        Some(CustodyError::Unauthorized)
    } else {
        None
    }
}

impl<'a> MakeAccounts<'a> {
    /// Each role is the account at its position in `accounts`.
    pub open spec fn binds(self, accounts: Seq<Account>) -> bool {
        &&& accounts.len() == 9
        &&& *self.maker == accounts[0]
        &&& *self.escrow == accounts[1]
        &&& *self.mint_a == accounts[2]
        &&& *self.mint_b == accounts[3]
        &&& *self.maker_ata_a == accounts[4]
        &&& *self.vault == accounts[5]
        &&& *self.token_program == accounts[6]
        &&& *self.associated_token_program == accounts[7]
        &&& *self.system_program == accounts[8]
    }

    /// Names the nine accounts of Make by their positions, without asking
    /// anything of them. This is how an instruction that is under way looks
    /// at its accounts again after the runtime has carried out a step.
    pub fn by_position(accounts: &'a [Account]) -> (r: Option<MakeAccounts<'a>>)
        ensures
            match r {
                Some(bound) => bound.binds(accounts@),
                None => accounts@.len() != 9,
            },
    {
        if accounts.len() != 9 {
            return None;
        }
        Some(
            MakeAccounts {
                maker: &accounts[0],
                escrow: &accounts[1],
                mint_a: &accounts[2],
                mint_b: &accounts[3],
                maker_ata_a: &accounts[4],
                vault: &accounts[5],
                token_program: &accounts[6],
                associated_token_program: &accounts[7],
                system_program: &accounts[8],
            },
        )
    }

    /// Binds the nine accounts of Make to their roles. The maker must have
    /// signed, and the three services must be the well-known ones. Nothing
    /// is asked of the escrow account: it does not exist yet.
    pub fn try_from(accounts: &'a [Account]) -> (r: Result<MakeAccounts<'a>, CustodyError>)
        ensures
            match r {
                Ok(bound) => make_accounts_rejection(accounts@) is None && bound.binds(accounts@),
                Err(e) => make_accounts_rejection(accounts@) == Some(e),
            },
    {
        let bound = match MakeAccounts::by_position(accounts) {
            Some(bound) => bound,
            None => {
                return Err(CustodyError::NotFound);
            },
        };
        if !bound.maker.is_signer {
            return Err(CustodyError::Unauthorized);
        }
        if !same_key(&bound.token_program.key, &token_program()) {
            return Err(CustodyError::Unauthorized);
        }
        if !same_key(&bound.associated_token_program.key, &associated_token_program()) {
            return Err(CustodyError::Unauthorized);
        }
        if !same_key(&bound.system_program.key, &system_program()) {
            return Err(CustodyError::Unauthorized);
        }
        Ok(bound)
    }
}

/// Why a Make is rejected, if it is: first for its accounts, then for its
/// payload, then because the escrow account is not at `derived`, the
/// address derived for the maker and the number in the payload.
pub open spec fn make_rejection(
    data: Seq<u8>,
    accounts: Seq<Account>,
    derived: Option<(Seq<u8>, u8)>,
) -> Option<CustodyError> {
    match make_accounts_rejection(accounts) {
        Some(e) => Some(e),
        None => match decode_make(data) {
            Err(e) => Some(e),
            Ok(_) => if is_derived(accounts[1].key@, derived) {
                None
            } else {
                Some(CustodyError::Unauthorized)
            },
        },
    }
}

/// The address derived for the escrow that a Make with this payload and
/// these accounts opens.
pub open spec fn make_address(data: Seq<u8>, accounts: Seq<Account>, program_id: Seq<u8>) -> Option<
    (Seq<u8>, u8),
>
    recommends
        accounts.len() == 9,
        decode_make(data) is Ok,
{
    program_address(escrow_seeds(accounts[0].key@, decode_make(data)->Ok_0.seed), program_id)
}

/// How far a Make has come. The bump of the escrow's address is derived
/// once, before the first sub-operation, and carried along until the record
/// is written.
#[derive(Clone, Copy, Debug, PartialEq, Eq, Structural)]
pub enum MakeStage {
    /// Nothing has been done.
    Start,
    /// The escrow account exists.
    AccountCreated { bump: u8 },
    /// The custody holder of asset A exists.
    HolderCreated { bump: u8 },
    /// The escrow account persists the terms.
    RecordStored,
    /// Asset A is in custody.
    Finished,
}

/// A Make bound to the accounts as they stand.
#[derive(Clone, Copy, Debug, PartialEq, Eq)]
pub struct Make<'a> {
    pub accounts: MakeAccounts<'a>,
    pub data: MakeInstructionData,
}

/// The terms that a Make persists.
pub open spec fn make_terms(make: Make, bump: u8) -> EscrowTerms {
    EscrowTerms {
        seed: make.data.seed,
        maker: make.accounts.maker.key@,
        mint_a: make.accounts.mint_a.key@,
        mint_b: make.accounts.mint_b.key@,
        receive: make.data.receive,
        bump,
    }
}

/// The next step of a Make at `stage`, with the accounts as they stand, and
/// the stage that follows it. `derived` is the address derived for the
/// escrow and `rent` the least value that keeps an account of 113 bytes
/// alive; both count at the start only.
///
/// 1. The escrow account, which must be at the derived address, is created
///    there with room for a record, owned by this program, paid for by the
///    maker and signed for the escrow.
/// 2. The custody holder of asset A is created for the escrow, paid for by
///    the maker.
/// 3. The terms are written into the escrow account.
/// 4. The maker's `amount` of asset A goes into custody, on the maker's own
///    signature.
pub open spec fn make_step(
    make: Make,
    stage: MakeStage,
    derived: Option<(Seq<u8>, u8)>,
    program_id: Pubkey,
    rent: u64,
) -> Result<(StepView, MakeStage), CustodyError> {
    let a = make.accounts;
    match stage {
        MakeStage::Start => match derived {
            None => Err(CustodyError::Unauthorized),
            Some((address, bump)) => if address != a.escrow.key@ {
                Err(CustodyError::Unauthorized)
            } else {
                Ok(
                    (
                        StepView::Invoke(
                            signed(
                                Instruction::CreateAccount {
                                    from: a.maker.key,
                                    to: a.escrow.key,
                                    lamports: rent,
                                    space: ESCROW_LEN as u64,
                                    owner: program_id,
                                },
                                escrow_signer_seeds(a.maker.key@, make.data.seed, bump),
                            ),
                        ),
                        MakeStage::AccountCreated { bump },
                    ),
                )
            },
        },
        MakeStage::AccountCreated { bump } => Ok(
            (
                StepView::Invoke(
                    unsigned(
                        Instruction::CreateAssociatedTokenAccount {
                            funding_account: a.maker.key,
                            account: a.vault.key,
                            wallet: a.escrow.key,
                            mint: a.mint_a.key,
                            system_program: a.system_program.key,
                            token_program: a.token_program.key,
                        },
                    ),
                ),
                MakeStage::HolderCreated { bump },
            ),
        ),
        MakeStage::HolderCreated { bump } => if a.escrow.data@.len() < ESCROW_LEN {
            Err(CustodyError::MalformedInput)
        } else {
            Ok(
                (
                    StepView::Store {
                        account: a.escrow.key,
                        data: stored(a.escrow.data@, make_terms(make, bump)),
                    },
                    MakeStage::RecordStored,
                ),
            )
        },
        MakeStage::RecordStored => match found(mint_decimals(a.mint_a.data@)) {
            Err(e) => Err(e),
            Ok(decimals) => Ok(
                (
                    StepView::Invoke(
                        unsigned(
                            Instruction::TransferChecked {
                                from: a.maker_ata_a.key,
                                mint: a.mint_a.key,
                                to: a.vault.key,
                                authority: a.maker.key,
                                amount: make.data.amount,
                                decimals,
                            },
                        ),
                    ),
                    MakeStage::Finished,
                ),
            ),
        },
        MakeStage::Finished => Ok((StepView::Done, MakeStage::Finished)),
    }
}

/// How many steps of a Make lie behind `stage`.
pub open spec fn make_rank(stage: MakeStage) -> nat {
    match stage {
        MakeStage::Start => 0,
        MakeStage::AccountCreated { .. } => 1,
        MakeStage::HolderCreated { .. } => 2,
        MakeStage::RecordStored => 3,
        MakeStage::Finished => 4,
    }
}

/// Every step of a Make that is not refused moves exactly one stage on,
/// until the last stage, which asks for nothing. The record is written once,
/// as the third step, and no other step writes.
pub proof fn lemma_make_advances(
    make: Make,
    stage: MakeStage,
    derived: Option<(Seq<u8>, u8)>,
    program_id: Pubkey,
    rent: u64,
)
    ensures
        match make_step(make, stage, derived, program_id, rent) {
            Ok((step, next)) => {
                &&& stage == MakeStage::Finished ==> step == StepView::Done && next
                    == MakeStage::Finished
                &&& stage != MakeStage::Finished ==> make_rank(next) == make_rank(stage) + 1
                &&& step is Store <==> stage is HolderCreated
                &&& step is Done <==> stage == MakeStage::Finished
            },
            Err(e) => stage is Start || stage is HolderCreated || stage == MakeStage::RecordStored,
        },
{
}

/// The record that a Make writes persists what the payload asked for: a
/// payload that was decoded asks for more than nothing, so the record of an
/// escrow never asks for nothing; and reading the record back gives the
/// maker, the two assets, the number and the bump of this Make.
pub proof fn lemma_make_stores_its_terms(
    data: Seq<u8>,
    make: Make,
    bump: u8,
    derived: Option<(Seq<u8>, u8)>,
    program_id: Pubkey,
    rent: u64,
)
    requires
        decode_make(data) == Ok::<MakeInstructionData, CustodyError>(make.data),
    ensures
        make.data.receive > 0,
        make.data.amount > 0,
        make_step(make, MakeStage::HolderCreated { bump }, derived, program_id, rent) matches Ok(
            (StepView::Store { account, data: written }, _),
        ) ==> account == make.accounts.escrow.key && load_outcome(written) == Ok::<
            EscrowTerms,
            CustodyError,
        >(make_terms(make, bump)),
{
    let terms = make_terms(make, bump);
    let before = make.accounts.escrow.data@;
    if before.len() >= ESCROW_LEN {
        lemma_escrow_roundtrip(terms, before.subrange(ESCROW_LEN as int, before.len() as int));
    }
}

impl<'a> Make<'a> {
    /// Completes a Make from its bound accounts, its decoded payload and the
    /// address derived for its escrow: the escrow account must be at that
    /// address.
    pub fn with_address(
        accounts: MakeAccounts<'a>,
        data: MakeInstructionData,
        derived: Option<(Pubkey, u8)>,
    ) -> (r: Result<Make<'a>, CustodyError>)
        ensures
            match r {
                Ok(make) => is_derived(accounts.escrow.key@, derived_view(derived))
                    && make.accounts == accounts && make.data == data,
                Err(e) => !is_derived(accounts.escrow.key@, derived_view(derived))
                    && e == CustodyError::Unauthorized,
            },
    {
        match derived {
            Some((address, _)) => {
                if same_key(&accounts.escrow.key, &address) {
                    Ok(Make { accounts, data })
                } else {
                    Err(CustodyError::Unauthorized)
                }
            },
            None => Err(CustodyError::Unauthorized),
        }
    }

    /// Validates a Make: binds the accounts, decodes the payload, derives
    /// the address of the escrow from the maker and the number in the
    /// payload, and requires the escrow account to be at that address.
    pub fn try_from(data: &[u8], accounts: &'a [Account], program_id: &Pubkey) -> (r: Result<
        Make<'a>,
        CustodyError,
    >)
        ensures
            match r {
                Ok(make) => make_rejection(
                    data@,
                    accounts@,
                    make_address(data@, accounts@, program_id@),
                ) is None && make.accounts.binds(accounts@) && decode_make(data@) == Ok::<
                    MakeInstructionData,
                    CustodyError,
                >(make.data),
                Err(e) => make_rejection(
                    data@,
                    accounts@,
                    make_address(data@, accounts@, program_id@),
                ) == Some(e),
            },
    {
        let accounts = match MakeAccounts::try_from(accounts) {
            Ok(accounts) => accounts,
            Err(e) => {
                return Err(e);
            },
        };
        let data = match MakeInstructionData::try_from(data) {
            Ok(data) => data,
            Err(e) => {
                return Err(e);
            },
        };
        let derived = find_escrow_address(&accounts.maker.key, data.seed, program_id);
        Make::with_address(accounts, data, derived)
    }

    /// Names the next sub-operation of this Make at `stage` and the stage
    /// that follows it, given the address derived for the escrow.
    pub fn process_with_address(
        &self,
        stage: MakeStage,
        derived: Option<(Pubkey, u8)>,
        program_id: &Pubkey,
        rent: u64,
    ) -> (r: Result<(Step, MakeStage), CustodyError>)
        ensures
            step_view(r) == make_step(*self, stage, derived_view(derived), *program_id, rent),
    {
        let a = &self.accounts;
        match stage {
            MakeStage::Start => {
                let bump = match derived {
                    Some((address, bump)) => {
                        if !same_key(&address, &a.escrow.key) {
                            return Err(CustodyError::Unauthorized);
                        }
                        bump
                    },
                    None => {
                        return Err(CustodyError::Unauthorized);
                    },
                };
                let instruction = Instruction::CreateAccount {
                    from: a.maker.key,
                    to: a.escrow.key,
                    lamports: rent,
                    space: ESCROW_LEN as u64,
                    owner: *program_id,
                };
                let signer = escrow_signer(&a.maker.key, self.data.seed, bump);
                Ok(
                    (
                        Step::Invoke(Invocation { instruction, signer: Some(signer) }),
                        MakeStage::AccountCreated { bump },
                    ),
                )
            },
            MakeStage::AccountCreated { bump } => {
                let instruction = Instruction::CreateAssociatedTokenAccount {
                    funding_account: a.maker.key,
                    account: a.vault.key,
                    wallet: a.escrow.key,
                    mint: a.mint_a.key,
                    system_program: a.system_program.key,
                    token_program: a.token_program.key,
                };
                Ok(
                    (
                        Step::Invoke(Invocation { instruction, signer: None }),
                        MakeStage::HolderCreated { bump },
                    ),
                )
            },
            MakeStage::HolderCreated { bump } => {
                let mut data = slice_to_vec(a.escrow.data.as_slice());
                match Escrow::initialize(
                    &mut data,
                    self.data.seed,
                    &a.maker.key,
                    &a.mint_a.key,
                    &a.mint_b.key,
                    self.data.receive,
                    bump,
                ) {
                    Ok(()) => Ok(
                        (Step::Store { account: a.escrow.key, data }, MakeStage::RecordStored),
                    ),
                    Err(e) => Err(e),
                }
            },
            MakeStage::RecordStored => {
                let decimals = match read_mint_decimals(a.mint_a.data.as_slice()) {
                    Ok(decimals) => decimals,
                    Err(e) => {
                        return Err(e);
                    },
                };
                let instruction = Instruction::TransferChecked {
                    from: a.maker_ata_a.key,
                    mint: a.mint_a.key,
                    to: a.vault.key,
                    authority: a.maker.key,
                    amount: self.data.amount,
                    decimals,
                };
                Ok((Step::Invoke(Invocation { instruction, signer: None }), MakeStage::Finished))
            },
            MakeStage::Finished => Ok((Step::Done, MakeStage::Finished)),
        }
    }

    /// Names the next sub-operation of this Make at `stage` and the stage
    /// that follows it. At the start it derives the address of the escrow
    /// anew, for its bump. The runtime carries the sub-operation out and
    /// calls again with the accounts as they then stand, until the step is
    /// `Done`.
    pub fn process(&self, stage: MakeStage, program_id: &Pubkey, rent: u64) -> (r: Result<
        (Step, MakeStage),
        CustodyError,
    >)
        ensures
            step_view(r) == make_step(
                *self,
                stage,
                program_address(
                    escrow_seeds(self.accounts.maker.key@, self.data.seed),
                    program_id@,
                ),
                *program_id,
                rent,
            ),
    {
        let derived = match stage {
            MakeStage::Start => find_escrow_address(
                &self.accounts.maker.key,
                self.data.seed,
                program_id,
            ),
            _ => None,
        };
        self.process_with_address(stage, derived, program_id, rent)
    }
}

} // verus!
