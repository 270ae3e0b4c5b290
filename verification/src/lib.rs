//! Verified core of a family of on-ledger custody programs: an atomic-swap
//! escrow, an owner-keyed value vault, and a vault whose withdrawal is gated
//! by a time-bound signature record.
//!
//! The ledger runtime stays outside. It shows its accounts to this library as
//! plain [`account::Account`] values, and the library answers with the
//! sub-operations the runtime is to carry out, one at a time.
//!
//! - [`address`] derives custody addresses and builds signing capabilities.
//! - [`request`] and the payload types of each instruction decode payloads.
//! - The `*Accounts` types of each instruction bind account lists to roles.
//! - [`state`] reads and writes the escrow record.
//! - [`introspect`] turns a signature record into a permission to withdraw.
//! - The `process` functions of each instruction name the sub-operations of
//!   [`invoke`], in their order.

pub mod error;
pub mod bytes;
pub mod account;
pub mod token;
pub mod programs;
pub mod address;
pub mod state;
pub mod invoke;
pub mod escrow;
pub mod vault;
pub mod introspect;
pub mod secp_vault;
pub mod request;
