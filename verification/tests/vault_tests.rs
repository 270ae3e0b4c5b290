use blueshift_custody::account::Account;
use blueshift_custody::address::Signer;
use blueshift_custody::error::CustodyError;
use blueshift_custody::invoke::{Instruction, Invocation};
use blueshift_custody::vault::deposit::{Deposit, DepositAccounts, DepositInstructionData};
use blueshift_custody::vault::withdraw::{Withdraw, WithdrawAccounts};

const PROGRAM: [u8; 32] = [7u8; 32];
const OWNER: [u8; 32] = [0x11; 32];
const VAULT: [u8; 32] = [0x99; 32];

fn list(vault_lamports: u64) -> Vec<Account> {
    vec![
        Account {
            key: OWNER,
            owner: pinocchio_system::ID,
            is_signer: true,
            lamports: 10_000,
            data: Vec::new(),
        },
        Account {
            key: VAULT,
            owner: pinocchio_system::ID,
            is_signer: false,
            lamports: vault_lamports,
            data: Vec::new(),
        },
        Account {
            key: pinocchio_system::ID,
            owner: [3u8; 32],
            is_signer: false,
            lamports: 1,
            data: Vec::new(),
        },
    ]
}

#[test]
fn deposit_moves_the_amount_from_the_owner_into_the_vault() {
    let accounts = list(0);
    let deposit =
        Deposit::with_address(&1000u64.to_le_bytes(), &accounts, Some((VAULT, 253))).ok().unwrap();
    assert_eq!(deposit.instruction_data, DepositInstructionData { amount: 1000 });
    assert_eq!(deposit.accounts.owner, &accounts[0]);
    assert_eq!(deposit.accounts.vault, &accounts[1]);
    assert_eq!(
        deposit.process(),
        Invocation {
            instruction: Instruction::Transfer { from: OWNER, to: VAULT, lamports: 1000 },
            signer: None,
        }
    );
}

#[test]
fn deposit_needs_exactly_three_accounts() {
    let mut accounts = list(0);
    accounts.pop();
    assert_eq!(
        DepositAccounts::with_address(&accounts, Some((VAULT, 253))).err(),
        Some(CustodyError::NotFound)
    );
    assert_eq!(DepositAccounts::try_from(&accounts, &PROGRAM).err(), Some(CustodyError::NotFound));
    let mut accounts = list(0);
    accounts.push(accounts[2].clone());
    assert_eq!(
        Deposit::with_address(&1000u64.to_le_bytes(), &accounts, Some((VAULT, 253))).err(),
        Some(CustodyError::NotFound)
    );
}

#[test]
fn deposit_needs_the_owners_signature() {
    let mut accounts = list(0);
    accounts[0].is_signer = false;
    assert_eq!(
        DepositAccounts::with_address(&accounts, Some((VAULT, 253))).err(),
        Some(CustodyError::Unauthorized)
    );
}

#[test]
fn deposit_refuses_a_vault_of_another_program() {
    let mut accounts = list(0);
    accounts[1].owner = PROGRAM;
    assert_eq!(
        DepositAccounts::with_address(&accounts, Some((VAULT, 253))).err(),
        Some(CustodyError::Unauthorized)
    );
    accounts[1].lamports = 5;
    assert_eq!(
        DepositAccounts::with_address(&accounts, Some((VAULT, 253))).err(),
        Some(CustodyError::Unauthorized)
    );
}

#[test]
fn deposit_refuses_a_vault_that_holds_value() {
    let accounts = list(1);
    assert_eq!(
        DepositAccounts::with_address(&accounts, Some((VAULT, 253))).err(),
        Some(CustodyError::PreconditionFailed)
    );
    assert_eq!(
        Deposit::with_address(&1000u64.to_le_bytes(), &accounts, Some((VAULT, 253))).err(),
        Some(CustodyError::PreconditionFailed)
    );
    assert_eq!(
        Deposit::try_from(&1000u64.to_le_bytes(), &accounts, &PROGRAM).err(),
        Some(CustodyError::PreconditionFailed)
    );
}

#[test]
fn deposit_refuses_a_vault_at_another_address() {
    let accounts = list(0);
    assert_eq!(
        DepositAccounts::with_address(&accounts, Some(([0x98; 32], 253))).err(),
        Some(CustodyError::Unauthorized)
    );
    assert_eq!(
        DepositAccounts::with_address(&accounts, None).err(),
        Some(CustodyError::Unauthorized)
    );
}

#[test]
fn deposit_refuses_an_address_that_is_not_derived_for_the_owner() {
    let mut accounts = list(0);
    accounts[1].key = [0u8; 32];
    assert_eq!(
        Deposit::try_from(&1000u64.to_le_bytes(), &accounts, &PROGRAM).err(),
        Some(CustodyError::Unauthorized)
    );
}

#[test]
fn deposit_checks_the_accounts_before_the_payload() {
    let accounts = list(1);
    assert_eq!(
        Deposit::with_address(&[0u8; 8], &accounts, Some((VAULT, 253))).err(),
        Some(CustodyError::PreconditionFailed)
    );
    let accounts = list(0);
    assert_eq!(
        Deposit::with_address(&[0u8; 8], &accounts, Some((VAULT, 253))).err(),
        Some(CustodyError::MalformedInput)
    );
    assert_eq!(
        Deposit::with_address(&[1u8; 7], &accounts, Some((VAULT, 253))).err(),
        Some(CustodyError::MalformedInput)
    );
    let deposit = Deposit::with_address(
        &[0xe8, 0x03, 0, 0, 0, 0, 0, 0, 0xff],
        &accounts,
        Some((VAULT, 253)),
    )
    .ok()
    .unwrap();
    assert_eq!(deposit.instruction_data, DepositInstructionData { amount: 1000 });
}

#[test]
fn withdraw_moves_everything_back_to_the_owner() {
    let accounts = list(1000);
    let withdraw = Withdraw::with_address(&accounts, Some((VAULT, 253))).ok().unwrap();
    assert_eq!(withdraw.accounts.bumps, [253]);
    assert_eq!(withdraw.accounts.owner, &accounts[0]);
    assert_eq!(withdraw.accounts.vault, &accounts[1]);
    assert_eq!(
        withdraw.process(),
        Invocation {
            instruction: Instruction::Transfer { from: VAULT, to: OWNER, lamports: 1000 },
            signer: Some(Signer { seeds: vec![b"vault".to_vec(), OWNER.to_vec(), vec![253]] }),
        }
    );
}

#[test]
fn withdraw_refuses_an_empty_vault() {
    let accounts = list(0);
    assert_eq!(
        WithdrawAccounts::with_address(&accounts, Some((VAULT, 253))).err(),
        Some(CustodyError::PreconditionFailed)
    );
    assert_eq!(
        Withdraw::with_address(&accounts, Some((VAULT, 253))).err(),
        Some(CustodyError::PreconditionFailed)
    );
    assert_eq!(
        Withdraw::try_from(&accounts, &PROGRAM).err(),
        Some(CustodyError::PreconditionFailed)
    );
}

#[test]
fn withdraw_needs_the_owners_signature() {
    let mut accounts = list(1000);
    accounts[0].is_signer = false;
    assert_eq!(
        WithdrawAccounts::with_address(&accounts, Some((VAULT, 253))).err(),
        Some(CustodyError::Unauthorized)
    );
    accounts[1].lamports = 0;
    assert_eq!(
        WithdrawAccounts::with_address(&accounts, Some((VAULT, 253))).err(),
        Some(CustodyError::Unauthorized)
    );
}

#[test]
fn withdraw_refuses_a_vault_of_another_program() {
    let mut accounts = list(1000);
    accounts[1].owner = PROGRAM;
    assert_eq!(
        WithdrawAccounts::with_address(&accounts, Some((VAULT, 253))).err(),
        Some(CustodyError::Unauthorized)
    );
}

#[test]
fn withdraw_refuses_a_vault_at_another_address() {
    let accounts = list(1000);
    assert_eq!(
        WithdrawAccounts::with_address(&accounts, Some((OWNER, 253))).err(),
        Some(CustodyError::Unauthorized)
    );
    assert_eq!(
        WithdrawAccounts::with_address(&accounts, None).err(),
        Some(CustodyError::Unauthorized)
    );
    let mut accounts = list(1000);
    accounts[1].key = [0u8; 32];
    assert_eq!(
        WithdrawAccounts::try_from(&accounts, &PROGRAM).err(),
        Some(CustodyError::Unauthorized)
    );
}

#[test]
fn withdraw_needs_exactly_three_accounts() {
    let mut accounts = list(1000);
    accounts.truncate(2);
    assert_eq!(
        WithdrawAccounts::with_address(&accounts, Some((VAULT, 253))).err(),
        Some(CustodyError::NotFound)
    );
    assert_eq!(Withdraw::try_from(&accounts, &PROGRAM).err(), Some(CustodyError::NotFound));
}

#[test]
fn a_vault_can_be_funded_and_emptied_again_and_again() {
    let mut accounts = list(0);
    for round in 1..4u64 {
        let amount = 100 * round;
        let moved = {
            let deposit =
                Deposit::with_address(&amount.to_le_bytes(), &accounts, Some((VAULT, 253)))
                    .ok()
                    .unwrap();
            deposit.process()
        };
        assert_eq!(
            moved.instruction,
            Instruction::Transfer { from: OWNER, to: VAULT, lamports: amount }
        );
        accounts[0].lamports -= amount;
        accounts[1].lamports += amount;
        let moved = {
            let withdraw = Withdraw::with_address(&accounts, Some((VAULT, 253))).ok().unwrap();
            withdraw.process()
        };
        assert_eq!(
            moved.instruction,
            Instruction::Transfer { from: VAULT, to: OWNER, lamports: amount }
        );
        accounts[1].lamports -= amount;
        accounts[0].lamports += amount;
        assert_eq!(accounts[0].lamports, 10_000);
        assert_eq!(accounts[1].lamports, 0);
    }
}
