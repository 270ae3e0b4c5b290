use blueshift_custody::account::{Account, Pubkey};
use blueshift_custody::address::Signer;
use blueshift_custody::error::CustodyError;
use blueshift_custody::escrow::make::{Make, MakeAccounts, MakeInstructionData, MakeStage};
use blueshift_custody::escrow::refund::{Refund, RefundAccounts, RefundStage};
use blueshift_custody::escrow::take::{Take, TakeAccounts, TakeStage};
use blueshift_custody::invoke::{Instruction, Invocation, Step};
use blueshift_custody::state::Escrow;

const PROGRAM: Pubkey = [7u8; 32];
const SYSTEM: Pubkey = pinocchio_system::ID;
const TOKEN: Pubkey = pinocchio_token::ID;
const ASSOCIATED: Pubkey = pinocchio_associated_token_account::ID;
const MAKER: Pubkey = [0x11; 32];
const TAKER: Pubkey = [0x22; 32];
const ESCROW: Pubkey = [0xee; 32];
const VAULT: Pubkey = [0x55; 32];
const MINT_A: Pubkey = [0xaa; 32];
const MINT_B: Pubkey = [0xbb; 32];
const MAKER_A: Pubkey = [0x1a; 32];
const MAKER_B: Pubkey = [0x1b; 32];
const TAKER_A: Pubkey = [0x2a; 32];
const TAKER_B: Pubkey = [0x2b; 32];
const BUMP: u8 = 254;
const RENT: u64 = 1_677_360;
const HOLDER_RENT: u64 = 2_039_280;

fn mint(key: Pubkey, decimals: u8) -> Account {
    let mut data = vec![0u8; 82];
    data[44] = decimals;
    data[45] = 1;
    Account { key, owner: TOKEN, is_signer: false, lamports: 1_461_600, data }
}

fn holder(key: Pubkey, mint: Pubkey, wallet: Pubkey, amount: u64) -> Account {
    let mut data = vec![0u8; 165];
    data[..32].copy_from_slice(&mint);
    data[32..64].copy_from_slice(&wallet);
    data[64..72].copy_from_slice(&amount.to_le_bytes());
    data[108] = 1;
    Account { key, owner: TOKEN, is_signer: false, lamports: HOLDER_RENT, data }
}

fn wallet(key: Pubkey, lamports: u64) -> Account {
    Account { key, owner: SYSTEM, is_signer: false, lamports, data: Vec::new() }
}

fn program(key: Pubkey) -> Account {
    Account { key, owner: [0xf0; 32], is_signer: false, lamports: 1, data: Vec::new() }
}

/// The ledger before any instruction: the maker holds 5000 of asset A, the
/// taker 800 of asset B, and neither the escrow nor its custody holder
/// exists.
fn ledger() -> Vec<Account> {
    vec![
        wallet(MAKER, 10_000_000),
        wallet(TAKER, 10_000_000),
        wallet(ESCROW, 0),
        wallet(VAULT, 0),
        mint(MINT_A, 6),
        mint(MINT_B, 9),
        holder(MAKER_A, MINT_A, MAKER, 5000),
        holder(MAKER_B, MINT_B, MAKER, 0),
        holder(TAKER_A, MINT_A, TAKER, 0),
        holder(TAKER_B, MINT_B, TAKER, 800),
        program(SYSTEM),
        program(TOKEN),
        program(ASSOCIATED),
    ]
}

fn at(ledger: &[Account], key: Pubkey) -> usize {
    ledger.iter().position(|a| a.key == key).unwrap()
}

fn balance(ledger: &[Account], key: Pubkey) -> u64 {
    let a = &ledger[at(ledger, key)];
    u64::from_le_bytes(a.data[64..72].try_into().unwrap())
}

fn lamports(ledger: &[Account], key: Pubkey) -> u64 {
    ledger[at(ledger, key)].lamports
}

/// Shows the ledger to an instruction: the listed accounts, in order, with
/// the one that signed the transaction marked.
fn show(ledger: &[Account], keys: &[Pubkey], signed_by: Pubkey) -> Vec<Account> {
    keys.iter()
        .map(|k| {
            let mut a = ledger[at(ledger, *k)].clone();
            a.is_signer = a.key == signed_by;
            a
        })
        .collect()
}

fn move_lamports(ledger: &mut [Account], from: Pubkey, to: Pubkey, amount: u64) {
    let f = at(ledger, from);
    let t = at(ledger, to);
    assert!(ledger[f].lamports >= amount);
    ledger[f].lamports -= amount;
    ledger[t].lamports += amount;
    if ledger[f].lamports == 0 {
        ledger[f].data.clear();
        ledger[f].owner = SYSTEM;
    }
}

/// Carries a step out the way the services would.
fn perform(ledger: &mut [Account], step: &Step) {
    match step {
        Step::Invoke(Invocation { instruction, .. }) => match *instruction {
            Instruction::CreateAccount { from, to, lamports, space, owner } => {
                move_lamports(ledger, from, to, lamports);
                let t = at(ledger, to);
                ledger[t].data = vec![0u8; space as usize];
                ledger[t].owner = owner;
            },
            Instruction::CreateAssociatedTokenAccount {
                funding_account, account, wallet, mint, ..
            } => {
                move_lamports(ledger, funding_account, account, HOLDER_RENT);
                let t = at(ledger, account);
                ledger[t] = holder(account, mint, wallet, 0);
            },
            Instruction::TransferChecked { from, mint, to, amount, decimals, .. } => {
                assert_eq!(ledger[at(ledger, mint)].data[44], decimals);
                let f = at(ledger, from);
                let t = at(ledger, to);
                assert_eq!(ledger[f].data[..32], mint);
                assert_eq!(ledger[t].data[..32], mint);
                let left = balance(ledger, from).checked_sub(amount).unwrap();
                let more = balance(ledger, to) + amount;
                ledger[f].data[64..72].copy_from_slice(&left.to_le_bytes());
                ledger[t].data[64..72].copy_from_slice(&more.to_le_bytes());
            },
            Instruction::CloseAccount { account, destination, .. } => {
                assert_eq!(balance(ledger, account), 0);
                let all = lamports(ledger, account);
                move_lamports(ledger, account, destination, all);
            },
            Instruction::Transfer { from, to, lamports } => {
                move_lamports(ledger, from, to, lamports);
            },
        },
        Step::Store { account, data } => {
            let t = at(ledger, *account);
            assert_eq!(ledger[t].data.len(), data.len());
            ledger[t].data = data.clone();
        },
        Step::Done => {},
    }
}

const MAKE_LIST: [Pubkey; 9] =
    [MAKER, ESCROW, MINT_A, MINT_B, MAKER_A, VAULT, TOKEN, ASSOCIATED, SYSTEM];
const TAKE_LIST: [Pubkey; 12] = [
    TAKER, MAKER, ESCROW, MINT_A, MINT_B, VAULT, TAKER_A, TAKER_B, MAKER_B, SYSTEM, TOKEN,
    ASSOCIATED,
];
const REFUND_LIST: [Pubkey; 7] = [MAKER, ESCROW, MINT_A, VAULT, MAKER_A, SYSTEM, TOKEN];

fn make_payload(seed: u64, receive: u64, amount: u64) -> Vec<u8> {
    let mut data = Vec::new();
    data.extend_from_slice(&seed.to_le_bytes());
    data.extend_from_slice(&receive.to_le_bytes());
    data.extend_from_slice(&amount.to_le_bytes());
    data
}

fn escrow_signer() -> Option<Signer> {
    Some(Signer {
        seeds: vec![
            b"escrow".to_vec(),
            MAKER.to_vec(),
            vec![1, 0, 0, 0, 0, 0, 0, 0],
            vec![BUMP],
        ],
    })
}

/// Runs Make(seed=1, receive=500, amount=1000) on the ledger and returns
/// the steps it named.
fn run_make(ledger: &mut Vec<Account>) -> Vec<Step> {
    let payload = make_payload(1, 500, 1000);
    let mut steps = Vec::new();
    let mut stage = MakeStage::Start;
    loop {
        let shown = show(ledger, &MAKE_LIST, MAKER);
        let data = MakeInstructionData::try_from(&payload).ok().unwrap();
        let make = if stage == MakeStage::Start {
            let accounts = MakeAccounts::try_from(&shown).ok().unwrap();
            Make::with_address(accounts, data, Some((ESCROW, BUMP))).ok().unwrap()
        } else {
            Make { accounts: MakeAccounts::by_position(&shown).unwrap(), data }
        };
        let (step, next) =
            make.process_with_address(stage, Some((ESCROW, BUMP)), &PROGRAM, RENT).ok().unwrap();
        if step == Step::Done {
            assert_eq!(next, MakeStage::Finished);
            return steps;
        }
        perform(ledger, &step);
        steps.push(step);
        stage = next;
    }
}

fn bind_take(shown: &[Account]) -> Take<'_> {
    Take { accounts: TakeAccounts::by_position(shown).unwrap() }
}

fn bind_refund(shown: &[Account]) -> Refund<'_> {
    Refund { accounts: RefundAccounts::by_position(shown).unwrap() }
}

fn run_take(ledger: &mut Vec<Account>) -> Result<Vec<Step>, CustodyError> {
    let shown = show(ledger, &TAKE_LIST, TAKER);
    Take::try_from(&shown, &PROGRAM)?;
    let mut steps = Vec::new();
    let mut stage = TakeStage::Start;
    loop {
        let shown = show(ledger, &TAKE_LIST, TAKER);
        let (step, next) = bind_take(&shown).process(stage)?;
        if step == Step::Done {
            assert_eq!(next, TakeStage::Finished);
            return Ok(steps);
        }
        perform(ledger, &step);
        steps.push(step);
        stage = next;
    }
}

fn run_refund(ledger: &mut Vec<Account>) -> Result<Vec<Step>, CustodyError> {
    let shown = show(ledger, &REFUND_LIST, MAKER);
    Refund::try_from(&shown, &PROGRAM)?;
    let mut steps = Vec::new();
    let mut stage = RefundStage::Start;
    loop {
        let shown = show(ledger, &REFUND_LIST, MAKER);
        let (step, next) = bind_refund(&shown).process(stage)?;
        if step == Step::Done {
            assert_eq!(next, RefundStage::Finished);
            return Ok(steps);
        }
        perform(ledger, &step);
        steps.push(step);
        stage = next;
    }
}

#[test]
fn make_creates_the_escrow_and_takes_asset_a_into_custody() {
    let mut ledger = ledger();
    let steps = run_make(&mut ledger);
    let mut record = vec![0u8; 113];
    Escrow::initialize(&mut record, 1, &MAKER, &MINT_A, &MINT_B, 500, BUMP).ok().unwrap();
    assert_eq!(
        steps,
        vec![
            Step::Invoke(Invocation {
                instruction: Instruction::CreateAccount {
                    from: MAKER,
                    to: ESCROW,
                    lamports: RENT,
                    space: 113,
                    owner: PROGRAM,
                },
                signer: escrow_signer(),
            }),
            Step::Invoke(Invocation {
                instruction: Instruction::CreateAssociatedTokenAccount {
                    funding_account: MAKER,
                    account: VAULT,
                    wallet: ESCROW,
                    mint: MINT_A,
                    system_program: SYSTEM,
                    token_program: TOKEN,
                },
                signer: None,
            }),
            Step::Store { account: ESCROW, data: record.clone() },
            Step::Invoke(Invocation {
                instruction: Instruction::TransferChecked {
                    from: MAKER_A,
                    mint: MINT_A,
                    to: VAULT,
                    authority: MAKER,
                    amount: 1000,
                    decimals: 6,
                },
                signer: None,
            }),
        ]
    );
    assert_eq!(balance(&ledger, VAULT), 1000);
    assert_eq!(balance(&ledger, MAKER_A), 4000);
    let escrow = &ledger[at(&ledger, ESCROW)];
    assert_eq!(escrow.owner, PROGRAM);
    assert_eq!(escrow.data, record);
    assert_eq!(
        Escrow::load(&escrow.data),
        Ok(Escrow {
            seed: 1,
            maker: MAKER,
            mint_a: MINT_A,
            mint_b: MINT_B,
            receive: 500,
            bump: [BUMP],
        })
    );
}

#[test]
fn make_then_take_swaps_the_assets_and_closes_the_escrow() {
    let mut ledger = ledger();
    run_make(&mut ledger);
    let maker_before = lamports(&ledger, MAKER);
    let steps = run_take(&mut ledger).ok().unwrap();
    assert_eq!(
        steps,
        vec![
            Step::Invoke(Invocation {
                instruction: Instruction::TransferChecked {
                    from: TAKER_B,
                    mint: MINT_B,
                    to: MAKER_B,
                    authority: TAKER,
                    amount: 500,
                    decimals: 9,
                },
                signer: None,
            }),
            Step::Invoke(Invocation {
                instruction: Instruction::TransferChecked {
                    from: VAULT,
                    mint: MINT_A,
                    to: TAKER_A,
                    authority: ESCROW,
                    amount: 1000,
                    decimals: 6,
                },
                signer: escrow_signer(),
            }),
            Step::Invoke(Invocation {
                instruction: Instruction::CloseAccount {
                    account: VAULT,
                    destination: MAKER,
                    authority: ESCROW,
                },
                signer: escrow_signer(),
            }),
            Step::Invoke(Invocation {
                instruction: Instruction::Transfer { from: ESCROW, to: MAKER, lamports: RENT },
                signer: escrow_signer(),
            }),
        ]
    );
    assert_eq!(balance(&ledger, TAKER_B), 300);
    assert_eq!(balance(&ledger, MAKER_B), 500);
    assert_eq!(balance(&ledger, TAKER_A), 1000);
    assert_eq!(balance(&ledger, MAKER_A), 4000);
    assert_eq!(lamports(&ledger, MAKER), maker_before + HOLDER_RENT + RENT);
    assert_eq!(ledger[at(&ledger, VAULT)], wallet(VAULT, 0));
    assert_eq!(ledger[at(&ledger, ESCROW)], wallet(ESCROW, 0));
}

#[test]
fn make_then_refund_returns_asset_a_and_closes_the_escrow() {
    let mut ledger = ledger();
    let maker_at_first = lamports(&ledger, MAKER);
    run_make(&mut ledger);
    let steps = run_refund(&mut ledger).ok().unwrap();
    assert_eq!(
        steps,
        vec![
            Step::Invoke(Invocation {
                instruction: Instruction::TransferChecked {
                    from: VAULT,
                    mint: MINT_A,
                    to: MAKER_A,
                    authority: ESCROW,
                    amount: 1000,
                    decimals: 6,
                },
                signer: escrow_signer(),
            }),
            Step::Invoke(Invocation {
                instruction: Instruction::CloseAccount {
                    account: VAULT,
                    destination: MAKER,
                    authority: ESCROW,
                },
                signer: escrow_signer(),
            }),
            Step::Invoke(Invocation {
                instruction: Instruction::Transfer { from: ESCROW, to: MAKER, lamports: RENT },
                signer: escrow_signer(),
            }),
        ]
    );
    assert_eq!(balance(&ledger, MAKER_A), 5000);
    assert_eq!(balance(&ledger, TAKER_B), 800);
    assert_eq!(lamports(&ledger, MAKER), maker_at_first);
    assert_eq!(ledger[at(&ledger, VAULT)], wallet(VAULT, 0));
    assert_eq!(ledger[at(&ledger, ESCROW)], wallet(ESCROW, 0));
}

#[test]
fn take_after_refund_is_refused() {
    let mut ledger = ledger();
    run_make(&mut ledger);
    run_refund(&mut ledger).ok().unwrap();
    let after = ledger.clone();
    assert_eq!(run_take(&mut ledger).err(), Some(CustodyError::Unauthorized));
    assert_eq!(ledger, after);
}

#[test]
fn a_second_take_is_refused() {
    let mut ledger = ledger();
    run_make(&mut ledger);
    run_take(&mut ledger).ok().unwrap();
    let after = ledger.clone();
    assert_eq!(run_take(&mut ledger).err(), Some(CustodyError::Unauthorized));
    assert_eq!(ledger, after);
}

#[test]
fn a_second_refund_is_refused() {
    let mut ledger = ledger();
    run_make(&mut ledger);
    run_refund(&mut ledger).ok().unwrap();
    let after = ledger.clone();
    assert_eq!(run_refund(&mut ledger).err(), Some(CustodyError::Unauthorized));
    assert_eq!(ledger, after);
}

#[test]
fn refund_after_take_is_refused() {
    let mut ledger = ledger();
    run_make(&mut ledger);
    run_take(&mut ledger).ok().unwrap();
    assert_eq!(run_refund(&mut ledger).err(), Some(CustodyError::Unauthorized));
}

#[test]
fn take_before_make_is_refused() {
    let mut ledger = ledger();
    assert_eq!(run_take(&mut ledger).err(), Some(CustodyError::Unauthorized));
    assert_eq!(run_refund(&mut ledger).err(), Some(CustodyError::Unauthorized));
}

#[test]
fn take_with_another_maker_or_asset_names_no_step() {
    let mut ledger = ledger();
    run_make(&mut ledger);
    let after = ledger.clone();
    let mut list = TAKE_LIST;
    list[1] = TAKER;
    let shown = show(&ledger, &list, TAKER);
    assert_eq!(Take::try_from(&shown, &PROGRAM).err(), Some(CustodyError::Unauthorized));
    let mut list = TAKE_LIST;
    list[3] = MINT_B;
    let shown = show(&ledger, &list, TAKER);
    assert_eq!(Take::try_from(&shown, &PROGRAM).err(), Some(CustodyError::Unauthorized));
    let mut list = TAKE_LIST;
    list[4] = MINT_A;
    let shown = show(&ledger, &list, TAKER);
    assert_eq!(Take::try_from(&shown, &PROGRAM).err(), Some(CustodyError::Unauthorized));
    let mut list = REFUND_LIST;
    list[2] = MINT_B;
    let shown = show(&ledger, &list, MAKER);
    assert_eq!(Refund::try_from(&shown, &PROGRAM).err(), Some(CustodyError::Unauthorized));
    assert_eq!(ledger, after);
}

#[test]
fn take_releases_the_live_balance_of_custody() {
    let mut ledger = ledger();
    run_make(&mut ledger);
    let v = at(&ledger, VAULT);
    ledger[v].data[64..72].copy_from_slice(&1250u64.to_le_bytes());
    let steps = run_take(&mut ledger).ok().unwrap();
    assert_eq!(
        steps[1],
        Step::Invoke(Invocation {
            instruction: Instruction::TransferChecked {
                from: VAULT,
                mint: MINT_A,
                to: TAKER_A,
                authority: ESCROW,
                amount: 1250,
                decimals: 6,
            },
            signer: escrow_signer(),
        })
    );
    assert_eq!(balance(&ledger, TAKER_A), 1250);
}

#[test]
fn take_reads_custody_after_the_maker_was_paid() {
    let mut ledger = ledger();
    run_make(&mut ledger);
    let shown = show(&ledger, &TAKE_LIST, TAKER);
    let (first, stage) = bind_take(&shown).process(TakeStage::Start).ok().unwrap();
    assert_eq!(stage, TakeStage::MakerPaid { seed: 1, bump: BUMP });
    perform(&mut ledger, &first);
    let v = at(&ledger, VAULT);
    ledger[v].data[64..72].copy_from_slice(&1001u64.to_le_bytes());
    let shown = show(&ledger, &TAKE_LIST, TAKER);
    let (second, stage) = bind_take(&shown).process(stage).ok().unwrap();
    assert_eq!(stage, TakeStage::VaultReleased { seed: 1, bump: BUMP });
    match second {
        Step::Invoke(Invocation {
            instruction: Instruction::TransferChecked { amount, .. }, ..
        }) => assert_eq!(amount, 1001),
        _ => panic!("the second step of a Take releases custody"),
    }
}

#[test]
fn take_stops_where_a_descriptor_or_holder_is_too_short() {
    let mut ledger = ledger();
    run_make(&mut ledger);
    let b = at(&ledger, MINT_B);
    ledger[b].data.truncate(44);
    let shown = show(&ledger, &TAKE_LIST, TAKER);
    assert_eq!(
        bind_take(&shown).process(TakeStage::Start).err(),
        Some(CustodyError::NotFound)
    );
    let v = at(&ledger, VAULT);
    ledger[v].data.truncate(71);
    let shown = show(&ledger, &TAKE_LIST, TAKER);
    let stage = TakeStage::MakerPaid { seed: 1, bump: BUMP };
    assert_eq!(bind_take(&shown).process(stage).err(), Some(CustodyError::NotFound));
    ledger[v].data.resize(165, 0);
    let a = at(&ledger, MINT_A);
    ledger[a].data.truncate(44);
    let shown = show(&ledger, &TAKE_LIST, TAKER);
    assert_eq!(bind_take(&shown).process(stage).err(), Some(CustodyError::NotFound));
    let shown = show(&ledger, &REFUND_LIST, MAKER);
    assert_eq!(
        bind_refund(&shown).process(RefundStage::Start).err(),
        Some(CustodyError::NotFound)
    );
}

#[test]
fn a_finished_instruction_asks_for_nothing_more() {
    let mut ledger = ledger();
    run_make(&mut ledger);
    let shown = show(&ledger, &TAKE_LIST, TAKER);
    assert_eq!(
        bind_take(&shown).process(TakeStage::Finished),
        Ok((Step::Done, TakeStage::Finished))
    );
    let shown = show(&ledger, &REFUND_LIST, MAKER);
    assert_eq!(
        bind_refund(&shown).process(RefundStage::Finished),
        Ok((Step::Done, RefundStage::Finished))
    );
}

#[test]
fn make_cannot_start_without_a_derived_address() {
    let ledger = ledger();
    let shown = show(&ledger, &MAKE_LIST, MAKER);
    let accounts = MakeAccounts::try_from(&shown).ok().unwrap();
    let data = MakeInstructionData { seed: 1, receive: 500, amount: 1000 };
    let make = Make { accounts, data };
    assert_eq!(
        make.process_with_address(MakeStage::Start, None, &PROGRAM, RENT).err(),
        Some(CustodyError::Unauthorized)
    );
    assert_eq!(
        make.process_with_address(MakeStage::Start, Some((VAULT, BUMP)), &PROGRAM, RENT).err(),
        Some(CustodyError::Unauthorized)
    );
    assert!(
        make.process_with_address(MakeStage::Start, Some((ESCROW, BUMP)), &PROGRAM, RENT).is_ok()
    );
}

#[test]
fn make_cannot_write_the_record_into_too_small_an_account() {
    let mut ledger = ledger();
    let e = at(&ledger, ESCROW);
    ledger[e].data = vec![0u8; 112];
    let shown = show(&ledger, &MAKE_LIST, MAKER);
    let accounts = MakeAccounts::try_from(&shown).ok().unwrap();
    let make = Make { accounts, data: MakeInstructionData { seed: 1, receive: 500, amount: 1000 } };
    assert_eq!(
        make.process(MakeStage::HolderCreated { bump: BUMP }, &PROGRAM, RENT).err(),
        Some(CustodyError::MalformedInput)
    );
}

#[test]
fn make_stops_where_the_descriptor_is_too_short() {
    let mut ledger = ledger();
    let a = at(&ledger, MINT_A);
    ledger[a].data.truncate(44);
    let shown = show(&ledger, &MAKE_LIST, MAKER);
    let accounts = MakeAccounts::try_from(&shown).ok().unwrap();
    let make = Make { accounts, data: MakeInstructionData { seed: 1, receive: 500, amount: 1000 } };
    assert_eq!(
        make.process(MakeStage::RecordStored, &PROGRAM, RENT).err(),
        Some(CustodyError::NotFound)
    );
}

#[test]
fn roles_are_named_by_position_alone() {
    let ledger = ledger();
    let shown = show(&ledger, &TAKE_LIST, MAKER);
    let roles = TakeAccounts::by_position(&shown).unwrap();
    assert_eq!(roles.taker.key, TAKER);
    assert_eq!(roles.maker_ata_b.key, MAKER_B);
    assert_eq!(roles.associated_token_program.key, ASSOCIATED);
    assert!(TakeAccounts::try_from(&shown, &PROGRAM).is_err());
    assert_eq!(TakeAccounts::by_position(&shown[..11]), None);
    let shown = show(&ledger, &REFUND_LIST, TAKER);
    let roles = RefundAccounts::by_position(&shown).unwrap();
    assert_eq!(roles.maker.key, MAKER);
    assert_eq!(roles.token_program.key, TOKEN);
    assert_eq!(RefundAccounts::by_position(&shown[..6]), None);
    let shown = show(&ledger, &MAKE_LIST, TAKER);
    let roles = MakeAccounts::by_position(&shown).unwrap();
    assert_eq!(roles.vault.key, VAULT);
    assert_eq!(roles.system_program.key, SYSTEM);
    assert_eq!(MakeAccounts::by_position(&[]), None);
}
