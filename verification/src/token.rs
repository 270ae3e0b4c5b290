//! The two fields read from accounts that the token service lays out: the
//! decimal precision of an asset descriptor and the balance of an asset
//! holder.

use vstd::prelude::*;
use crate::bytes::{read_u64_le, u64_from_le};
use crate::error::CustodyError;

verus! {

/// Where an asset descriptor keeps its decimal precision.
pub const MINT_DECIMALS_OFFSET: usize = 44;

/// Where an asset holder keeps its balance, eight bytes little-endian.
pub const TOKEN_ACCOUNT_AMOUNT_OFFSET: usize = 64;

/// The decimal precision stored in an asset descriptor, if the data reaches
/// that far.
pub open spec fn mint_decimals(data: Seq<u8>) -> Option<u8> {
    if data.len() > MINT_DECIMALS_OFFSET {
        Some(data[MINT_DECIMALS_OFFSET as int])
    } else {
        None
    }
}

/// The balance stored in an asset holder, if the data reaches that far.
pub open spec fn holder_balance(data: Seq<u8>) -> Option<u64> {
    if data.len() >= TOKEN_ACCOUNT_AMOUNT_OFFSET + 8 {
        Some(
            u64_from_le(
                data.subrange(
                    TOKEN_ACCOUNT_AMOUNT_OFFSET as int,
                    TOKEN_ACCOUNT_AMOUNT_OFFSET + 8,
                ),
            ),
        )
    } else {
        None
    }
}

/// What a read of a foreign field reports: the value, or `NotFound` where the
/// data ends before it.
pub open spec fn found<T>(value: Option<T>) -> Result<T, CustodyError> {
    match value {
        Some(v) => Ok(v),
        None => Err(CustodyError::NotFound),
    }
}

/// Reads the decimal precision of an asset descriptor.
pub fn read_mint_decimals(data: &[u8]) -> (r: Result<u8, CustodyError>)
    ensures
        r == found(mint_decimals(data@)),
{
    if data.len() <= MINT_DECIMALS_OFFSET {
        return Err(CustodyError::NotFound);
    }
    Ok(data[MINT_DECIMALS_OFFSET])
}

/// Reads the live balance of an asset holder.
pub fn read_holder_balance(data: &[u8]) -> (r: Result<u64, CustodyError>)
    ensures
        r == found(holder_balance(data@)),
{
    if data.len() < TOKEN_ACCOUNT_AMOUNT_OFFSET + 8 {
        return Err(CustodyError::NotFound);
    }
    Ok(read_u64_le(data, TOKEN_ACCOUNT_AMOUNT_OFFSET))
}

} // verus!
