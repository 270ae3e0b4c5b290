use blueshift_custody::account::Account;
use blueshift_custody::error::CustodyError;
use blueshift_custody::escrow::make::{Make, MakeAccounts, MakeInstructionData};
use blueshift_custody::escrow::refund::{Refund, RefundAccounts};
use blueshift_custody::escrow::take::{Take, TakeAccounts};
use blueshift_custody::state::Escrow;

const PROGRAM: [u8; 32] = [7u8; 32];
const MAKER: [u8; 32] = [0x11; 32];
const TAKER: [u8; 32] = [0x22; 32];
const ESCROW: [u8; 32] = [0xee; 32];
const MINT_A: [u8; 32] = [0xaa; 32];
const MINT_B: [u8; 32] = [0xbb; 32];

fn account(key: [u8; 32]) -> Account {
    Account { key, owner: [0u8; 32], is_signer: false, lamports: 0, data: Vec::new() }
}

fn signer(key: [u8; 32]) -> Account {
    Account { key, owner: [0u8; 32], is_signer: true, lamports: 5_000_000, data: Vec::new() }
}

fn escrow_account(maker: [u8; 32], mint_a: [u8; 32], mint_b: [u8; 32]) -> Account {
    let mut data = vec![0u8; 113];
    Escrow::initialize(&mut data, 1, &maker, &mint_a, &mint_b, 500, 254).ok().unwrap();
    Account { key: ESCROW, owner: PROGRAM, is_signer: false, lamports: 1_677_360, data }
}

fn take_list() -> Vec<Account> {
    vec![
        signer(TAKER),
        account(MAKER),
        escrow_account(MAKER, MINT_A, MINT_B),
        account(MINT_A),
        account(MINT_B),
        account([0x55; 32]),
        account([0x61; 32]),
        account([0x62; 32]),
        account([0x63; 32]),
        account([0u8; 32]),
        account(pinocchio_token::ID),
        account(pinocchio_associated_token_account::ID),
    ]
}

fn refund_list() -> Vec<Account> {
    vec![
        signer(MAKER),
        escrow_account(MAKER, MINT_A, MINT_B),
        account(MINT_A),
        account([0x55; 32]),
        account([0x64; 32]),
        account([0u8; 32]),
        account(pinocchio_token::ID),
    ]
}

fn make_list() -> Vec<Account> {
    vec![
        signer(MAKER),
        account(ESCROW),
        account(MINT_A),
        account(MINT_B),
        account([0x64; 32]),
        account([0x55; 32]),
        account(pinocchio_token::ID),
        account(pinocchio_associated_token_account::ID),
        account(pinocchio_system::ID),
    ]
}

fn make_payload(seed: u64, receive: u64, amount: u64) -> Vec<u8> {
    let mut data = Vec::new();
    data.extend_from_slice(&seed.to_le_bytes());
    data.extend_from_slice(&receive.to_le_bytes());
    data.extend_from_slice(&amount.to_le_bytes());
    data
}

#[test]
fn take_binds_each_account_to_its_role() {
    let list = take_list();
    let bound = TakeAccounts::try_from(&list, &PROGRAM).ok().unwrap();
    assert_eq!(bound.taker, &list[0]);
    assert_eq!(bound.maker, &list[1]);
    assert_eq!(bound.escrow, &list[2]);
    assert_eq!(bound.mint_a, &list[3]);
    assert_eq!(bound.mint_b, &list[4]);
    assert_eq!(bound.vault, &list[5]);
    assert_eq!(bound.taker_ata_a, &list[6]);
    assert_eq!(bound.taker_ata_b, &list[7]);
    assert_eq!(bound.maker_ata_b, &list[8]);
    assert_eq!(bound.system_program, &list[9]);
    assert_eq!(bound.token_program, &list[10]);
    assert_eq!(bound.associated_token_program, &list[11]);
    assert!(Take::try_from(&list, &PROGRAM).is_ok());
}

#[test]
fn take_needs_exactly_twelve_accounts() {
    let mut list = take_list();
    list.pop();
    assert_eq!(TakeAccounts::try_from(&list, &PROGRAM).err(), Some(CustodyError::NotFound));
    let mut list = take_list();
    list.push(account([9u8; 32]));
    assert_eq!(TakeAccounts::try_from(&list, &PROGRAM).err(), Some(CustodyError::NotFound));
    assert_eq!(Take::try_from(&[], &PROGRAM).err(), Some(CustodyError::NotFound));
}

#[test]
fn take_needs_the_takers_signature() {
    let mut list = take_list();
    list[0].is_signer = false;
    assert_eq!(TakeAccounts::try_from(&list, &PROGRAM).err(), Some(CustodyError::Unauthorized));
}

#[test]
fn take_needs_an_escrow_of_this_program() {
    let mut list = take_list();
    list[2].owner = [8u8; 32];
    assert_eq!(TakeAccounts::try_from(&list, &PROGRAM).err(), Some(CustodyError::Unauthorized));
    let list = take_list();
    assert_eq!(TakeAccounts::try_from(&list, &[8u8; 32]).err(), Some(CustodyError::Unauthorized));
}

#[test]
fn take_needs_a_whole_record() {
    let mut list = take_list();
    list[2].data.truncate(112);
    assert_eq!(
        TakeAccounts::try_from(&list, &PROGRAM).err(),
        Some(CustodyError::MalformedInput)
    );
}

#[test]
fn take_refuses_a_maker_the_record_does_not_name() {
    let mut list = take_list();
    list[1].key = [0x12; 32];
    assert_eq!(TakeAccounts::try_from(&list, &PROGRAM).err(), Some(CustodyError::Unauthorized));
    assert_eq!(Take::try_from(&list, &PROGRAM).err(), Some(CustodyError::Unauthorized));
}

#[test]
fn take_refuses_an_asset_a_the_record_does_not_name() {
    let mut list = take_list();
    list[3].key = MINT_B;
    assert_eq!(TakeAccounts::try_from(&list, &PROGRAM).err(), Some(CustodyError::Unauthorized));
}

#[test]
fn take_refuses_an_asset_b_the_record_does_not_name() {
    let mut list = take_list();
    list[4].key[31] ^= 1;
    assert_eq!(TakeAccounts::try_from(&list, &PROGRAM).err(), Some(CustodyError::Unauthorized));
}

#[test]
fn take_refuses_an_escrow_that_was_closed() {
    let mut list = take_list();
    list[2] = account(ESCROW);
    assert_eq!(Take::try_from(&list, &PROGRAM).err(), Some(CustodyError::Unauthorized));
}

#[test]
fn refund_binds_each_account_to_its_role() {
    let list = refund_list();
    let bound = RefundAccounts::try_from(&list, &PROGRAM).ok().unwrap();
    assert_eq!(bound.maker, &list[0]);
    assert_eq!(bound.escrow, &list[1]);
    assert_eq!(bound.mint_a, &list[2]);
    assert_eq!(bound.vault, &list[3]);
    assert_eq!(bound.maker_ata_a, &list[4]);
    assert_eq!(bound.system_program, &list[5]);
    assert_eq!(bound.token_program, &list[6]);
    assert!(Refund::try_from(&list, &PROGRAM).is_ok());
}

#[test]
fn refund_needs_exactly_seven_accounts() {
    let mut list = refund_list();
    list.pop();
    assert_eq!(RefundAccounts::try_from(&list, &PROGRAM).err(), Some(CustodyError::NotFound));
    let mut list = refund_list();
    list.push(account([9u8; 32]));
    assert_eq!(Refund::try_from(&list, &PROGRAM).err(), Some(CustodyError::NotFound));
}

#[test]
fn refund_needs_the_makers_signature() {
    let mut list = refund_list();
    list[0].is_signer = false;
    assert_eq!(
        RefundAccounts::try_from(&list, &PROGRAM).err(),
        Some(CustodyError::Unauthorized)
    );
}

#[test]
fn refund_needs_an_escrow_of_this_program() {
    let mut list = refund_list();
    list[1].owner = pinocchio_system::ID;
    assert_eq!(
        RefundAccounts::try_from(&list, &PROGRAM).err(),
        Some(CustodyError::Unauthorized)
    );
}

#[test]
fn refund_needs_a_whole_record() {
    let mut list = refund_list();
    list[1].data.clear();
    assert_eq!(
        RefundAccounts::try_from(&list, &PROGRAM).err(),
        Some(CustodyError::MalformedInput)
    );
}

#[test]
fn refund_refuses_a_maker_the_record_does_not_name() {
    let mut list = refund_list();
    list[0].key = TAKER;
    assert_eq!(Refund::try_from(&list, &PROGRAM).err(), Some(CustodyError::Unauthorized));
}

#[test]
fn refund_refuses_an_asset_the_record_does_not_name() {
    let mut list = refund_list();
    list[2].key = MINT_B;
    assert_eq!(Refund::try_from(&list, &PROGRAM).err(), Some(CustodyError::Unauthorized));
}

#[test]
fn make_is_accepted_at_the_derived_address() {
    let list = make_list();
    let accounts = MakeAccounts::try_from(&list).ok().unwrap();
    let data = MakeInstructionData::try_from(&make_payload(1, 500, 1000)).ok().unwrap();
    let make = Make::with_address(accounts, data, Some((ESCROW, 254))).ok().unwrap();
    assert_eq!(make.data, MakeInstructionData { seed: 1, receive: 500, amount: 1000 });
    assert_eq!(make.accounts.escrow.key, ESCROW);
    assert_eq!(make.accounts.maker.key, MAKER);
}

#[test]
fn make_is_refused_at_another_address() {
    let list = make_list();
    let data = MakeInstructionData::try_from(&make_payload(1, 500, 1000)).ok().unwrap();
    let accounts = MakeAccounts::try_from(&list).ok().unwrap();
    assert_eq!(
        Make::with_address(accounts, data, Some(([0xef; 32], 254))).err(),
        Some(CustodyError::Unauthorized)
    );
    let accounts = MakeAccounts::try_from(&list).ok().unwrap();
    assert_eq!(Make::with_address(accounts, data, None).err(), Some(CustodyError::Unauthorized));
}

#[test]
fn make_checks_accounts_before_payload_before_address() {
    let mut list = make_list();
    list.pop();
    assert_eq!(Make::try_from(&[], &list, &PROGRAM).err(), Some(CustodyError::NotFound));
    let list = make_list();
    assert_eq!(
        Make::try_from(&make_payload(1, 0, 1000), &list, &PROGRAM).err(),
        Some(CustodyError::MalformedInput)
    );
    assert_eq!(
        Make::try_from(&make_payload(1, 500, 1000)[..20], &list, &PROGRAM).err(),
        Some(CustodyError::MalformedInput)
    );
}

#[test]
fn make_is_refused_where_the_escrow_is_not_at_its_derived_address() {
    let mut list = make_list();
    list[1].key = [0u8; 32];
    assert_eq!(
        Make::try_from(&make_payload(1, 500, 1000), &list, &PROGRAM).err(),
        Some(CustodyError::Unauthorized)
    );
}
