//! The plain vault: one value-holding account per owner, funded by Deposit
//! and emptied by Withdraw.

pub mod deposit;
pub mod withdraw;
