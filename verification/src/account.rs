//! Identities and accounts as the runtime shows them.

use vstd::prelude::*;

verus! {

/// A 32-byte identity: the address of an account, a program or a mint.
pub type Pubkey = [u8; 32];

/// One account of the list handed to an instruction, as it stands at the
/// moment it is shown to the library.
#[derive(Clone, Debug, PartialEq, Eq)]
pub struct Account {
    /// The account's address.
    pub key: Pubkey,
    /// The program that owns the account.
    pub owner: Pubkey,
    /// Whether the account signed the transaction.
    pub is_signer: bool,
    /// The value the account holds.
    pub lamports: u64,
    /// The account's raw storage.
    pub data: Vec<u8>,
}

impl Account {
    /// Whether `program` owns this account.
    pub fn is_owned_by(&self, program: &Pubkey) -> (r: bool)
        ensures
            r == (self.owner@ == program@),
    {
        same_key(&self.owner, program)
    }
}

/// Whether two identities are the same, byte for byte.
pub fn same_key(a: &Pubkey, b: &Pubkey) -> (r: bool)
    ensures
        r == (a@ == b@),
{
    let mut i: usize = 0;
    while i < 32
        invariant
            i <= 32,
            forall|j: int| 0 <= j < i ==> a@[j] == b@[j],
        decreases 32 - i,
    {
        if a[i] != b[i] {
            return false;
        }
        i += 1;
    }
    assert(a@ =~= b@);
    true
}

/// Whether `key` is the identity written at the start of `bytes`.
pub fn key_matches(key: &Pubkey, bytes: &[u8]) -> (r: bool)
    requires
        bytes@.len() >= 32,
    ensures
        r == (key@ == bytes@.subrange(0, 32)),
{
    let mut i: usize = 0;
    while i < 32
        invariant
            i <= 32,
            bytes@.len() >= 32,
            forall|j: int| 0 <= j < i ==> key@[j] == bytes@[j],
        decreases 32 - i,
    {
        if key[i] != bytes[i] {
            assert(bytes@.subrange(0, 32)[i as int] == bytes@[i as int]);
            return false;
        }
        i += 1;
    }
    assert(key@ =~= bytes@.subrange(0, 32));
    true
}

/// Reads the identity stored at `data[offset..offset + 32]`.
pub fn read_pubkey(data: &[u8], offset: usize) -> (r: Pubkey)
    requires
        offset + 32 <= data@.len(),
    ensures
        r@ == data@.subrange(offset as int, offset + 32),
{
    let len = data.len();
    let mut out = [0u8; 32];
    let mut i: usize = 0;
    while i < 32
        invariant
            i <= 32,
            len == data@.len(),
            offset + 32 <= len,
            forall|j: int| 0 <= j < i ==> out@[j] == data@[offset + j],
        decreases 32 - i,
    {
        out[i] = data[offset + i];
        i += 1;
    }
    assert(out@ =~= data@.subrange(offset as int, offset + 32));
    out
}

} // verus!
