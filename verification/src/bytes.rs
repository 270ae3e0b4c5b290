//! Fixed-width little-endian integers over byte sequences.

use vstd::prelude::*;

verus! {

/// The unsigned value of eight bytes, least significant byte first.
pub open spec fn u64_from_le(s: Seq<u8>) -> u64
    recommends
        s.len() == 8,
{
    (s[0] as int + 0x100 * (s[1] as int) + 0x1_0000 * (s[2] as int) + 0x100_0000 * (s[3] as int)
        + 0x1_0000_0000 * (s[4] as int) + 0x100_0000_0000 * (s[5] as int) + 0x1_0000_0000_0000 * (
    s[6] as int) + 0x100_0000_0000_0000 * (s[7] as int)) as u64
}

/// The eight bytes of `x`, least significant byte first: byte `i` is the
/// remainder modulo 256 of `x` divided `i` times by 256.
pub open spec fn u64_to_le(x: u64) -> Seq<u8> {
    let x1 = x / 0x100;
    let x2 = x1 / 0x100;
    let x3 = x2 / 0x100;
    let x4 = x3 / 0x100;
    let x5 = x4 / 0x100;
    let x6 = x5 / 0x100;
    let x7 = x6 / 0x100;
    seq![
        (x % 0x100) as u8,
        (x1 % 0x100) as u8,
        (x2 % 0x100) as u8,
        (x3 % 0x100) as u8,
        (x4 % 0x100) as u8,
        (x5 % 0x100) as u8,
        (x6 % 0x100) as u8,
        (x7 % 0x100) as u8,
    ]
}

/// The signed value of eight bytes in two's complement, least significant
/// byte first.
pub open spec fn i64_from_le(s: Seq<u8>) -> i64
    recommends
        s.len() == 8,
{
    let u = u64_from_le(s);
    if u < 0x8000_0000_0000_0000 {
        u as i64
    } else {
        (u - 0x1_0000_0000_0000_0000) as i64
    }
}

/// Decoding undoes encoding.
pub proof fn lemma_u64_le_roundtrip(x: u64)
    ensures
        u64_to_le(x).len() == 8,
        u64_from_le(u64_to_le(x)) == x,
{
    let x1 = x / 0x100;
    let x2 = x1 / 0x100;
    let x3 = x2 / 0x100;
    let x4 = x3 / 0x100;
    let x5 = x4 / 0x100;
    let x6 = x5 / 0x100;
    let x7 = x6 / 0x100;
    assert(x == x % 0x100 + 0x100 * x1);
    assert(x1 == x1 % 0x100 + 0x100 * x2);
    assert(x2 == x2 % 0x100 + 0x100 * x3);
    assert(x3 == x3 % 0x100 + 0x100 * x4);
    assert(x4 == x4 % 0x100 + 0x100 * x5);
    assert(x5 == x5 % 0x100 + 0x100 * x6);
    assert(x6 == x6 % 0x100 + 0x100 * x7);
    assert(x7 < 0x100);
    assert(x7 == x7 % 0x100);
}

/// Two integers with the same encoding are the same integer.
pub proof fn lemma_u64_to_le_injective(x: u64, y: u64)
    requires
        u64_to_le(x) == u64_to_le(y),
    ensures
        x == y,
{
    lemma_u64_le_roundtrip(x);
    lemma_u64_le_roundtrip(y);
}

/// Encoding undoes decoding: eight bytes are the encoding of their value.
pub proof fn lemma_u64_from_le_roundtrip(s: Seq<u8>)
    requires
        s.len() == 8,
    ensures
        u64_to_le(u64_from_le(s)) == s,
{
    let t7 = s[7] as int;
    let t6 = s[6] as int + 0x100 * t7;
    let t5 = s[5] as int + 0x100 * t6;
    let t4 = s[4] as int + 0x100 * t5;
    let t3 = s[3] as int + 0x100 * t4;
    let t2 = s[2] as int + 0x100 * t3;
    let t1 = s[1] as int + 0x100 * t2;
    let t0 = s[0] as int + 0x100 * t1;
    let x = u64_from_le(s);
    assert(x == t0);
    let x1 = x / 0x100;
    let x2 = x1 / 0x100;
    let x3 = x2 / 0x100;
    let x4 = x3 / 0x100;
    let x5 = x4 / 0x100;
    let x6 = x5 / 0x100;
    let x7 = x6 / 0x100;
    assert(x1 == t1 && x % 0x100 == s[0]);
    assert(x2 == t2 && x1 % 0x100 == s[1]);
    assert(x3 == t3 && x2 % 0x100 == s[2]);
    assert(x4 == t4 && x3 % 0x100 == s[3]);
    assert(x5 == t5 && x4 % 0x100 == s[4]);
    assert(x6 == t6 && x5 % 0x100 == s[5]);
    assert(x7 == t7 && x6 % 0x100 == s[6]);
    assert(x7 % 0x100 == s[7]);
    assert(u64_to_le(x) =~= s);
}

/// Reads the unsigned integer stored at `data[offset..offset + 8]`.
pub fn read_u64_le(data: &[u8], offset: usize) -> (r: u64)
    requires
        offset + 8 <= data@.len(),
    ensures
        r == u64_from_le(data@.subrange(offset as int, offset + 8)),
{
    let b0 = data[offset] as u64;
    let b1 = data[offset + 1] as u64;
    let b2 = data[offset + 2] as u64;
    let b3 = data[offset + 3] as u64;
    let b4 = data[offset + 4] as u64;
    let b5 = data[offset + 5] as u64;
    let b6 = data[offset + 6] as u64;
    let b7 = data[offset + 7] as u64;
    b0 + b1 * 0x100 + b2 * 0x1_0000 + b3 * 0x100_0000 + b4 * 0x1_0000_0000 + b5 * 0x100_0000_0000
        + b6 * 0x1_0000_0000_0000 + b7 * 0x100_0000_0000_0000
}

/// Reads the signed integer stored at `data[offset..offset + 8]`.
pub fn read_i64_le(data: &[u8], offset: usize) -> (r: i64)
    requires
        offset + 8 <= data@.len(),
    ensures
        r == i64_from_le(data@.subrange(offset as int, offset + 8)),
{
    let u = read_u64_le(data, offset);
    if u < 0x8000_0000_0000_0000 {
        u as i64
    } else {
        let below: u64 = u64::MAX - u;
        -(below as i64) - 1
    }
}

/// The eight bytes of `x`, least significant byte first.
pub fn u64_to_le_bytes(x: u64) -> (r: [u8; 8])
    ensures
        r@ == u64_to_le(x),
{
    let x1: u64 = x / 0x100;
    let x2: u64 = x1 / 0x100;
    let x3: u64 = x2 / 0x100;
    let x4: u64 = x3 / 0x100;
    let x5: u64 = x4 / 0x100;
    let x6: u64 = x5 / 0x100;
    let x7: u64 = x6 / 0x100;
    let r = [
        (x % 0x100) as u8,
        (x1 % 0x100) as u8,
        (x2 % 0x100) as u8,
        (x3 % 0x100) as u8,
        (x4 % 0x100) as u8,
        (x5 % 0x100) as u8,
        (x6 % 0x100) as u8,
        (x7 % 0x100) as u8,
    ];
    assert(r@ =~= u64_to_le(x));
    r
}

} // verus!
