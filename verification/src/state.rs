//! The escrow record: the terms of one escrow in a fixed layout of 113
//! bytes inside the escrow account.
//!
//! | bytes      | field     |
//! |------------|-----------|
//! | `0..8`     | `seed`, little-endian    |
//! | `8..40`    | `maker`   |
//! | `40..72`   | `mint_a`  |
//! | `72..104`  | `mint_b`  |
//! | `104..112` | `receive`, little-endian |
//! | `112`      | `bump`    |

use vstd::prelude::*;
use crate::account::{read_pubkey, Pubkey};
use crate::bytes::{
    lemma_u64_le_roundtrip, read_u64_le, u64_from_le, u64_to_le, u64_to_le_bytes,
};
use crate::error::CustodyError;

verus! {

/// The size of an escrow record.
pub const ESCROW_LEN: usize = 113;

/// The terms of one escrow, as persisted.
#[derive(Clone, Copy, Debug, PartialEq, Eq)]
pub struct Escrow {
    /// The number under which the maker opened this escrow.
    pub seed: u64,
    /// Who opened the escrow and is paid by the taker.
    pub maker: Pubkey,
    /// The asset held in custody.
    pub mint_a: Pubkey,
    /// The asset the maker asks for.
    pub mint_b: Pubkey,
    /// How much of asset B the maker asks for.
    pub receive: u64,
    /// The bump of the escrow's custody address.
    pub bump: [u8; 1],
}

/// The terms of an escrow as plain values.
pub struct EscrowTerms {
    pub seed: u64,
    pub maker: Seq<u8>,
    pub mint_a: Seq<u8>,
    pub mint_b: Seq<u8>,
    pub receive: u64,
    pub bump: u8,
}

impl EscrowTerms {
    /// The three identities have the length of an identity.
    pub open spec fn well_formed(self) -> bool {
        &&& self.maker.len() == 32
        &&& self.mint_a.len() == 32
        &&& self.mint_b.len() == 32
    }
}

impl View for Escrow {
    type V = EscrowTerms;

    open spec fn view(&self) -> EscrowTerms {
        EscrowTerms {
            seed: self.seed,
            maker: self.maker@,
            mint_a: self.mint_a@,
            mint_b: self.mint_b@,
            receive: self.receive,
            bump: self.bump@[0],
        }
    }
}

/// The 113 bytes that persist `terms`.
pub open spec fn encode_escrow(terms: EscrowTerms) -> Seq<u8> {
    u64_to_le(terms.seed) + terms.maker + terms.mint_a + terms.mint_b + u64_to_le(terms.receive)
        + seq![terms.bump]
}

/// The terms persisted in the first 113 bytes of `bytes`.
pub open spec fn decode_escrow(bytes: Seq<u8>) -> EscrowTerms
    recommends
        bytes.len() >= ESCROW_LEN,
{
    EscrowTerms {
        seed: u64_from_le(bytes.subrange(0, 8)),
        maker: bytes.subrange(8, 40),
        mint_a: bytes.subrange(40, 72),
        mint_b: bytes.subrange(72, 104),
        receive: u64_from_le(bytes.subrange(104, 112)),
        bump: bytes[112],
    }
}

/// What a load of the record from `bytes` yields: the terms, or
/// `MalformedInput` where the buffer is shorter than a record.
pub open spec fn load_outcome(bytes: Seq<u8>) -> Result<EscrowTerms, CustodyError> {
    if bytes.len() < ESCROW_LEN {
        Err(CustodyError::MalformedInput)
    } else {
        Ok(decode_escrow(bytes))
    }
}

/// The storage of an account after the record of `terms` has been written
/// over its first 113 bytes.
pub open spec fn stored(before: Seq<u8>, terms: EscrowTerms) -> Seq<u8>
    recommends
        before.len() >= ESCROW_LEN,
{
    encode_escrow(terms) + before.subrange(ESCROW_LEN as int, before.len() as int)
}

/// A record has 113 bytes, and reading back what was written gives the
/// terms that were written, whatever follows the record.
pub proof fn lemma_escrow_roundtrip(terms: EscrowTerms, rest: Seq<u8>)
    requires
        terms.well_formed(),
    ensures
        encode_escrow(terms).len() == ESCROW_LEN,
        decode_escrow(encode_escrow(terms) + rest) == terms,
{
    lemma_u64_le_roundtrip(terms.seed);
    lemma_u64_le_roundtrip(terms.receive);
    let bytes = encode_escrow(terms) + rest;
    let got = decode_escrow(bytes);
    assert(bytes.subrange(0, 8) =~= u64_to_le(terms.seed));
    assert(bytes.subrange(104, 112) =~= u64_to_le(terms.receive));
    assert(got.maker =~= terms.maker);
    assert(got.mint_a =~= terms.mint_a);
    assert(got.mint_b =~= terms.mint_b);
}

/// Two escrows with the same record have the same terms.
pub proof fn lemma_encode_escrow_injective(a: EscrowTerms, b: EscrowTerms)
    requires
        a.well_formed(),
        b.well_formed(),
        encode_escrow(a) == encode_escrow(b),
    ensures
        a == b,
{
    lemma_escrow_roundtrip(a, Seq::empty());
    lemma_escrow_roundtrip(b, Seq::empty());
}

impl Escrow {
    /// The size of an escrow record.
    pub const LEN: usize = 113;

    /// Reads the record at the start of `bytes`, after checking that the
    /// buffer holds a whole record.
    pub fn load(bytes: &[u8]) -> (r: Result<Escrow, CustodyError>)
        ensures
            match r {
                Ok(escrow) => load_outcome(bytes@) == Ok::<EscrowTerms, CustodyError>(escrow@),
                Err(e) => load_outcome(bytes@) == Err::<EscrowTerms, CustodyError>(e),
            },
    {
        if bytes.len() < ESCROW_LEN {
            return Err(CustodyError::MalformedInput);
        }
        let escrow = Escrow {
            seed: read_u64_le(bytes, 0),
            maker: read_pubkey(bytes, 8),
            mint_a: read_pubkey(bytes, 40),
            mint_b: read_pubkey(bytes, 72),
            receive: read_u64_le(bytes, 104),
            bump: [bytes[112]],
        };
        assert(escrow@ == decode_escrow(bytes@));
        Ok(escrow)
    }

    /// Writes every field of a new record over the first 113 bytes of
    /// `bytes` and leaves what follows them as it was. A buffer that cannot
    /// hold a record is rejected and left untouched.
    pub fn initialize(
        bytes: &mut Vec<u8>,
        seed: u64,
        maker: &Pubkey,
        mint_a: &Pubkey,
        mint_b: &Pubkey,
        receive: u64,
        bump: u8,
    ) -> (r: Result<(), CustodyError>)
        ensures
            old(bytes)@.len() < ESCROW_LEN ==> r == Err::<(), CustodyError>(
                CustodyError::MalformedInput,
            ) && final(bytes)@ == old(bytes)@,
            old(bytes)@.len() >= ESCROW_LEN ==> r == Ok::<(), CustodyError>(()) && final(bytes)@
                == stored(
                old(bytes)@,
                EscrowTerms {
                    seed,
                    maker: maker@,
                    mint_a: mint_a@,
                    mint_b: mint_b@,
                    receive,
                    bump,
                },
            ),
    {
        if bytes.len() < ESCROW_LEN {
            return Err(CustodyError::MalformedInput);
        }
        let ghost before = bytes@;
        let ghost terms = EscrowTerms {
            seed,
            maker: maker@,
            mint_a: mint_a@,
            mint_b: mint_b@,
            receive,
            bump,
        };
        let seed_bytes = u64_to_le_bytes(seed);
        let receive_bytes = u64_to_le_bytes(receive);
        let mut out: Vec<u8> = Vec::with_capacity(bytes.len());
        out.extend_from_slice(seed_bytes.as_slice());
        out.extend_from_slice(maker.as_slice());
        out.extend_from_slice(mint_a.as_slice());
        out.extend_from_slice(mint_b.as_slice());
        out.extend_from_slice(receive_bytes.as_slice());
        out.push(bump);
        assert(out@ =~= encode_escrow(terms));
        let mut i: usize = ESCROW_LEN;
        while i < bytes.len()
            invariant
                ESCROW_LEN <= i <= bytes@.len(),
                bytes@ == before,
                out@ == encode_escrow(terms) + before.subrange(ESCROW_LEN as int, i as int),
            decreases bytes@.len() - i,
        {
            out.push(bytes[i]);
            assert(out@ =~= encode_escrow(terms) + before.subrange(ESCROW_LEN as int, i + 1));
            i += 1;
        }
        *bytes = out;
        Ok(())
    }
}

} // verus!
