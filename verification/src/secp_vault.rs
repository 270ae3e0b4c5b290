//! The signature-gated vault: anyone may fund the vault of a secp256r1
//! signer, and whoever presents that signer's time-bound permission may
//! empty it.

pub mod deposit;
pub mod withdraw;
