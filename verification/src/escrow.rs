//! The atomic-swap escrow: a maker deposits asset A, a taker pays asset B
//! and receives A, or the maker takes A back.

pub mod make;
pub mod take;
pub mod refund;
pub mod lifecycle;
