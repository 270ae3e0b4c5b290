//! Derived custody addresses: the seed schemes, the search for the canonical
//! address and its bump, and the signing capability built from the same
//! seeds.

use vstd::prelude::*;
use crate::account::Pubkey;
use crate::bytes::{lemma_u64_to_le_injective, u64_to_le, u64_to_le_bytes};

verus! {

/// The compressed public key of a secp256r1 signer.
pub type Secp256r1Pubkey = [u8; 33];

/// The text `escrow`, first seed of an escrow's custody address.
pub open spec fn escrow_tag() -> Seq<u8> {
    seq![0x65u8, 0x73u8, 0x63u8, 0x72u8, 0x6fu8, 0x77u8]
}

/// The text `vault`, first seed of a vault's custody address.
pub open spec fn vault_tag() -> Seq<u8> {
    seq![0x76u8, 0x61u8, 0x75u8, 0x6cu8, 0x74u8]
}

/// Seeds of an escrow's custody address: the tag, the maker, and the maker's
/// chosen number in eight little-endian bytes.
pub open spec fn escrow_seeds(maker: Seq<u8>, seed: u64) -> Seq<Seq<u8>> {
    seq![escrow_tag(), maker, u64_to_le(seed)]
}

/// Seeds of a plain vault's custody address: the tag and the owner.
pub open spec fn vault_seeds(owner: Seq<u8>) -> Seq<Seq<u8>> {
    seq![vault_tag(), owner]
}

/// Seeds of a signature-gated vault's custody address: the tag, the first
/// byte of the signer's public key, and its remaining 32 bytes.
pub open spec fn secp_vault_seeds(signer: Seq<u8>) -> Seq<Seq<u8>> {
    seq![vault_tag(), signer.subrange(0, 1), signer.subrange(1, 33)]
}

/// The seeds with which the program signs for a derived address: the seeds
/// of the address followed by its bump.
pub open spec fn signer_seeds(seeds: Seq<Seq<u8>>, bump: u8) -> Seq<Seq<u8>> {
    seeds.push(seq![bump])
}

/// What the runtime's search for a program-derived address yields for a seed
/// list and a program: the canonical off-curve address and its bump, or
/// nothing where no bump gives one.
pub uninterp spec fn program_address(seeds: Seq<Seq<u8>>, program_id: Seq<u8>) -> Option<
    (Seq<u8>, u8),
>;

/// A derived address and bump as plain values.
pub open spec fn derived_view(derived: Option<(Pubkey, u8)>) -> Option<(Seq<u8>, u8)> {
    match derived {
        Some((address, bump)) => Some((address@, bump)),
        None => None,
    }
}

/// Whether `address` is the one that `derived` names. No address is the one
/// that a failed derivation names.
pub open spec fn is_derived(address: Seq<u8>, derived: Option<(Seq<u8>, u8)>) -> bool {
    derived matches Some((found, _)) && found == address
}

/// `pinocchio::pubkey::try_find_program_address`. Trusted: what it returns
/// is a function of the seeds and the program alone. The search itself is
/// the runtime's; where the runtime is absent it reports that no address was
/// found.
#[verifier::external_body]
fn try_find_program_address(seeds: &Vec<Vec<u8>>, program_id: &Pubkey) -> (r: Option<
    (Pubkey, u8),
>)
    ensures
        derived_view(r) == program_address(seeds.deep_view(), program_id@),
{
    let parts: Vec<&[u8]> = seeds.iter().map(|s| s.as_slice()).collect();
    pinocchio::pubkey::try_find_program_address(&parts, program_id)
}

/// The escrow tag as a seed.
fn escrow_tag_bytes() -> (r: Vec<u8>)
    ensures
        r@ == escrow_tag(),
{
    let r = vec![0x65u8, 0x73u8, 0x63u8, 0x72u8, 0x6fu8, 0x77u8];
    assert(r@ =~= escrow_tag());
    r
}

/// The vault tag as a seed.
fn vault_tag_bytes() -> (r: Vec<u8>)
    ensures
        r@ == vault_tag(),
{
    let r = vec![0x76u8, 0x61u8, 0x75u8, 0x6cu8, 0x74u8];
    assert(r@ =~= vault_tag());
    r
}

/// Copies `bytes[from..to]` into a seed of its own.
fn seed_of(bytes: &[u8], from: usize, to: usize) -> (r: Vec<u8>)
    requires
        from <= to <= bytes@.len(),
    ensures
        r@ == bytes@.subrange(from as int, to as int),
{
    let mut r: Vec<u8> = Vec::new();
    let mut i: usize = from;
    while i < to
        invariant
            from <= i <= to <= bytes@.len(),
            r@ == bytes@.subrange(from as int, i as int),
        decreases to - i,
    {
        r.push(bytes[i]);
        assert(r@ =~= bytes@.subrange(from as int, i + 1));
        i += 1;
    }
    r
}

/// The seed list of an escrow's custody address.
pub fn escrow_seed_list(maker: &Pubkey, seed: u64) -> (r: Vec<Vec<u8>>)
    ensures
        r.deep_view() == escrow_seeds(maker@, seed),
{
    let number = u64_to_le_bytes(seed);
    let mut r: Vec<Vec<u8>> = Vec::new();
    r.push(escrow_tag_bytes());
    r.push(seed_of(maker.as_slice(), 0, 32));
    r.push(seed_of(number.as_slice(), 0, 8));
    assert(maker@.subrange(0, 32) =~= maker@);
    assert(number@.subrange(0, 8) =~= number@);
    assert(r.deep_view() =~~= escrow_seeds(maker@, seed));
    r
}

/// The seed list of a plain vault's custody address.
pub fn vault_seed_list(owner: &Pubkey) -> (r: Vec<Vec<u8>>)
    ensures
        r.deep_view() == vault_seeds(owner@),
{
    let mut r: Vec<Vec<u8>> = Vec::new();
    r.push(vault_tag_bytes());
    r.push(seed_of(owner.as_slice(), 0, 32));
    assert(owner@.subrange(0, 32) =~= owner@);
    assert(r.deep_view() =~~= vault_seeds(owner@));
    r
}

/// The seed list of a signature-gated vault's custody address.
pub fn secp_vault_seed_list(signer: &Secp256r1Pubkey) -> (r: Vec<Vec<u8>>)
    ensures
        r.deep_view() == secp_vault_seeds(signer@),
{
    let mut r: Vec<Vec<u8>> = Vec::new();
    r.push(vault_tag_bytes());
    r.push(seed_of(signer.as_slice(), 0, 1));
    r.push(seed_of(signer.as_slice(), 1, 33));
    assert(r.deep_view() =~~= secp_vault_seeds(signer@));
    r
}

/// Derives the custody address and bump of the escrow that `maker` opens
/// under `seed`.
pub fn find_escrow_address(maker: &Pubkey, seed: u64, program_id: &Pubkey) -> (r: Option<
    (Pubkey, u8),
>)
    ensures
        derived_view(r) == program_address(escrow_seeds(maker@, seed), program_id@),
{
    let seeds = escrow_seed_list(maker, seed);
    try_find_program_address(&seeds, program_id)
}

/// Derives the custody address and bump of `owner`'s plain vault.
pub fn find_vault_address(owner: &Pubkey, program_id: &Pubkey) -> (r: Option<(Pubkey, u8)>)
    ensures
        derived_view(r) == program_address(vault_seeds(owner@), program_id@),
{
    let seeds = vault_seed_list(owner);
    try_find_program_address(&seeds, program_id)
}

/// Derives the custody address and bump of the vault that only `signer` can
/// release.
pub fn find_secp_vault_address(signer: &Secp256r1Pubkey, program_id: &Pubkey) -> (r: Option<
    (Pubkey, u8),
>)
    ensures
        derived_view(r) == program_address(secp_vault_seeds(signer@), program_id@),
{
    let seeds = secp_vault_seed_list(signer);
    try_find_program_address(&seeds, program_id)
}

/// The capability to sign for a derived address. It holds no secret: the
/// runtime honours it because the program that presents it is the one the
/// address was derived for.
#[derive(Clone, Debug, PartialEq, Eq)]
pub struct Signer {
    /// The seeds of the address, followed by its bump.
    pub seeds: Vec<Vec<u8>>,
}

impl View for Signer {
    type V = Seq<Seq<u8>>;

    open spec fn view(&self) -> Seq<Seq<u8>> {
        self.seeds.deep_view()
    }
}

/// Builds the signing capability for the address derived from `seeds` with
/// `bump`.
pub fn make_signer(seeds: Vec<Vec<u8>>, bump: u8) -> (signer: Signer)
    ensures
        signer@ == signer_seeds(seeds.deep_view(), bump),
{
    let mut all = seeds;
    let ghost before = all.deep_view();
    all.push(vec![bump]);
    assert(all.deep_view() =~~= signer_seeds(before, bump));
    Signer { seeds: all }
}

/// The seeds with which the program signs for an escrow's custody address.
pub open spec fn escrow_signer_seeds(maker: Seq<u8>, seed: u64, bump: u8) -> Seq<Seq<u8>> {
    signer_seeds(escrow_seeds(maker, seed), bump)
}

/// The seeds with which the program signs for a plain vault.
pub open spec fn vault_signer_seeds(owner: Seq<u8>, bump: u8) -> Seq<Seq<u8>> {
    signer_seeds(vault_seeds(owner), bump)
}

/// The seeds with which the program signs for a signature-gated vault.
pub open spec fn secp_vault_signer_seeds(signer: Seq<u8>, bump: u8) -> Seq<Seq<u8>> {
    signer_seeds(secp_vault_seeds(signer), bump)
}

/// The capability to sign for the escrow that `maker` opened under `seed`.
pub fn escrow_signer(maker: &Pubkey, seed: u64, bump: u8) -> (signer: Signer)
    ensures
        signer@ == escrow_signer_seeds(maker@, seed, bump),
{
    make_signer(escrow_seed_list(maker, seed), bump)
}

/// The capability to sign for `owner`'s plain vault.
pub fn vault_signer(owner: &Pubkey, bump: u8) -> (signer: Signer)
    ensures
        signer@ == vault_signer_seeds(owner@, bump),
{
    make_signer(vault_seed_list(owner), bump)
}

/// The capability to sign for the vault that only `signer` can release.
pub fn secp_vault_signer(signer: &Secp256r1Pubkey, bump: u8) -> (capability: Signer)
    ensures
        capability@ == secp_vault_signer_seeds(signer@, bump),
{
    make_signer(secp_vault_seed_list(signer), bump)
}

/// The address derived for an escrow depends on nothing but the maker, the
/// number and the program: the same three always give the same address and
/// the same bump.
pub proof fn lemma_escrow_address_deterministic(
    maker1: Seq<u8>,
    seed1: u64,
    program1: Seq<u8>,
    maker2: Seq<u8>,
    seed2: u64,
    program2: Seq<u8>,
)
    requires
        maker1 == maker2,
        seed1 == seed2,
        program1 == program2,
    ensures
        program_address(escrow_seeds(maker1, seed1), program1) == program_address(
            escrow_seeds(maker2, seed2),
            program2,
        ),
{
}

/// Escrows of different makers, or of one maker under different numbers,
/// have different seed lists.
pub proof fn lemma_escrow_seeds_injective(maker1: Seq<u8>, seed1: u64, maker2: Seq<u8>, seed2: u64)
    requires
        escrow_seeds(maker1, seed1) == escrow_seeds(maker2, seed2),
    ensures
        maker1 == maker2,
        seed1 == seed2,
{
    assert(escrow_seeds(maker1, seed1)[1] == maker1);
    assert(escrow_seeds(maker2, seed2)[1] == maker2);
    assert(escrow_seeds(maker1, seed1)[2] == u64_to_le(seed1));
    assert(escrow_seeds(maker2, seed2)[2] == u64_to_le(seed2));
    lemma_u64_to_le_injective(seed1, seed2);
}

/// The seeds of a list one after another. Two seed lists that agree here
/// cannot be told apart by a derivation that reads its seeds in sequence.
pub open spec fn seed_bytes(seeds: Seq<Seq<u8>>) -> Seq<u8>
    decreases seeds.len(),
{
    if seeds.len() == 0 {
        Seq::empty()
    } else {
        seeds[0] + seed_bytes(seeds.drop_first())
    }
}

/// The seeds of an escrow, one after another, are the tag, the maker and
/// the number without a gap.
pub proof fn lemma_escrow_seed_bytes(maker: Seq<u8>, seed: u64)
    ensures
        seed_bytes(escrow_seeds(maker, seed)) == escrow_tag() + maker + u64_to_le(seed),
{
    let s = escrow_seeds(maker, seed);
    let s1 = s.drop_first();
    let s2 = s1.drop_first();
    let s3 = s2.drop_first();
    assert(s3.len() == 0);
    assert(seed_bytes(s3) == Seq::<u8>::empty());
    assert(seed_bytes(s2) == s2[0] + seed_bytes(s3));
    assert(seed_bytes(s1) == s1[0] + seed_bytes(s2));
    assert(seed_bytes(s) == s[0] + seed_bytes(s1));
    assert(seed_bytes(s) =~= escrow_tag() + maker + u64_to_le(seed));
}

/// Escrows of different makers, or of one maker under different numbers,
/// differ even in their seeds read one after another, so that no two of
/// them hand the same bytes to the derivation.
pub proof fn lemma_escrow_seed_bytes_injective(
    maker1: Seq<u8>,
    seed1: u64,
    maker2: Seq<u8>,
    seed2: u64,
)
    requires
        maker1.len() == 32,
        maker2.len() == 32,
        seed_bytes(escrow_seeds(maker1, seed1)) == seed_bytes(escrow_seeds(maker2, seed2)),
    ensures
        maker1 == maker2,
        seed1 == seed2,
{
    lemma_escrow_seed_bytes(maker1, seed1);
    lemma_escrow_seed_bytes(maker2, seed2);
    let a = escrow_tag() + maker1 + u64_to_le(seed1);
    let b = escrow_tag() + maker2 + u64_to_le(seed2);
    assert(a.subrange(6, 38) =~= maker1);
    assert(b.subrange(6, 38) =~= maker2);
    assert(a.subrange(38, 46) =~= u64_to_le(seed1));
    assert(b.subrange(38, 46) =~= u64_to_le(seed2));
    lemma_u64_to_le_injective(seed1, seed2);
}

/// The seeds of a plain vault, one after another, are the tag and the
/// owner; those of a signature-gated vault are the tag and the whole public
/// key of the signer.
pub proof fn lemma_vault_seed_bytes(owner: Seq<u8>, signer: Seq<u8>)
    requires
        signer.len() == 33,
    ensures
        seed_bytes(vault_seeds(owner)) == vault_tag() + owner,
        seed_bytes(secp_vault_seeds(signer)) == vault_tag() + signer,
{
    let s = vault_seeds(owner);
    let s1 = s.drop_first();
    let s2 = s1.drop_first();
    assert(s2.len() == 0);
    assert(seed_bytes(s2) == Seq::<u8>::empty());
    assert(seed_bytes(s1) == s1[0] + seed_bytes(s2));
    assert(seed_bytes(s) == s[0] + seed_bytes(s1));
    assert(seed_bytes(s) =~= vault_tag() + owner);
    let t = secp_vault_seeds(signer);
    let t1 = t.drop_first();
    let t2 = t1.drop_first();
    let t3 = t2.drop_first();
    assert(t3.len() == 0);
    assert(seed_bytes(t3) == Seq::<u8>::empty());
    assert(seed_bytes(t2) == t2[0] + seed_bytes(t3));
    assert(seed_bytes(t1) == t1[0] + seed_bytes(t2));
    assert(seed_bytes(t) == t[0] + seed_bytes(t1));
    assert(seed_bytes(t) =~= vault_tag() + signer);
}

/// Vaults of different owners, and signature-gated vaults of different
/// signers, differ even in their seeds read one after another.
pub proof fn lemma_vault_seed_bytes_injective(
    owner1: Seq<u8>,
    owner2: Seq<u8>,
    signer1: Seq<u8>,
    signer2: Seq<u8>,
)
    requires
        signer1.len() == 33,
        signer2.len() == 33,
    ensures
        seed_bytes(vault_seeds(owner1)) == seed_bytes(vault_seeds(owner2)) ==> owner1 == owner2,
        seed_bytes(secp_vault_seeds(signer1)) == seed_bytes(secp_vault_seeds(signer2))
            ==> signer1 == signer2,
{
    lemma_vault_seed_bytes(owner1, signer1);
    lemma_vault_seed_bytes(owner2, signer2);
    if seed_bytes(vault_seeds(owner1)) == seed_bytes(vault_seeds(owner2)) {
        let a = vault_tag() + owner1;
        let b = vault_tag() + owner2;
        assert(a.len() == b.len());
        assert(a.subrange(5, a.len() as int) =~= owner1);
        assert(b.subrange(5, b.len() as int) =~= owner2);
    }
    if seed_bytes(secp_vault_seeds(signer1)) == seed_bytes(secp_vault_seeds(signer2)) {
        let a = vault_tag() + signer1;
        let b = vault_tag() + signer2;
        assert(a.subrange(5, 38) =~= signer1);
        assert(b.subrange(5, 38) =~= signer2);
    }
}

/// Vaults of different owners have different seed lists.
pub proof fn lemma_vault_seeds_injective(owner1: Seq<u8>, owner2: Seq<u8>)
    requires
        vault_seeds(owner1) == vault_seeds(owner2),
    ensures
        owner1 == owner2,
{
    assert(vault_seeds(owner1)[1] == owner1);
    assert(vault_seeds(owner2)[1] == owner2);
}

/// Signature-gated vaults of different signers have different seed lists.
pub proof fn lemma_secp_vault_seeds_injective(signer1: Seq<u8>, signer2: Seq<u8>)
    requires
        signer1.len() == 33,
        signer2.len() == 33,
        secp_vault_seeds(signer1) == secp_vault_seeds(signer2),
    ensures
        signer1 == signer2,
{
    let a = secp_vault_seeds(signer1);
    let b = secp_vault_seeds(signer2);
    assert(a[1] == signer1.subrange(0, 1));
    assert(b[1] == signer2.subrange(0, 1));
    assert(a[2] == signer1.subrange(1, 33));
    assert(b[2] == signer2.subrange(1, 33));
    assert forall|i: int| 0 <= i < 33 implies signer1[i] == signer2[i] by {
        if i == 0 {
            assert(signer1.subrange(0, 1)[0] == signer2.subrange(0, 1)[0]);
        } else {
            assert(signer1.subrange(1, 33)[i - 1] == signer2.subrange(1, 33)[i - 1]);
        }
    }
    assert(signer1 =~= signer2);
}

} // verus!
