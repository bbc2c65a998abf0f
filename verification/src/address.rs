//! Record addresses and the deterministic, owner-scoped address derivation.
//!
//! Every stored record lives at an address derived from a documented seed
//! list. Derivation is the sole form of address authentication: a supplied
//! address that does not match its derivation is a fatal mismatch.

use vstd::prelude::*;

verus! {

use crate::error::FractionError;

/// A 32-byte record address.
pub struct Address {
    pub bytes: Vec<u8>,
}

impl View for Address {
    type V = Seq<u8>;

    open spec fn view(&self) -> Seq<u8> {
        self.bytes@
    }
}

impl Address {
    /// An address is well formed when it has exactly 32 bytes.
    pub open spec fn wf(&self) -> bool {
        self@.len() == 32
    }

    /// An identical copy of this address.
    pub fn dup(&self) -> (r: Address)
        ensures
            r@ == self@,
    {
        Address { bytes: copy_bytes(&self.bytes) }
    }

    /// Byte-for-byte equality of two addresses.
    pub fn eq_addr(&self, other: &Address) -> (r: bool)
        ensures
            r == (self@ == other@),
    {
        bytes_eq(&self.bytes, &other.bytes)
    }
}

/// An identical copy of a byte string.
pub fn copy_bytes(src: &Vec<u8>) -> (r: Vec<u8>)
    ensures
        r@ == src@,
{
    let mut r: Vec<u8> = Vec::new();
    let mut i: usize = 0;
    while i < src.len()
        invariant
            i <= src@.len(),
            r@.len() == i,
            forall|j: int| 0 <= j < i ==> r@[j] == src@[j],
        decreases src@.len() - i,
    {
        r.push(src[i]);
        i = i + 1;
    }
    proof {
        assert(r@ =~= src@);
    }
    r
}

/// Byte-for-byte equality of two byte strings.
pub fn bytes_eq(a: &Vec<u8>, b: &Vec<u8>) -> (r: bool)
    ensures
        r == (a@ == b@),
{
    if a.len() != b.len() {
        return false;
    }
    let mut i: usize = 0;
    while i < a.len()
        invariant
            i <= a@.len(),
            a@.len() == b@.len(),
            forall|j: int| 0 <= j < i ==> a@[j] == b@[j],
        decreases a@.len() - i,
    {
        if a[i] != b[i] {
            assert(a@[i as int] != b@[i as int]);
            return false;
        }
        i = i + 1;
    }
    proof {
        assert(a@ =~= b@);
    }
    true
}

/// What the hosting platform's program-derived-address search returns for a
/// seed list and an owning program: the derived address and its bump
/// discriminant, or nothing when no viable derivation exists.
pub uninterp spec fn pda_of(seeds: Seq<Seq<u8>>, owner: Seq<u8>) -> Option<(Seq<u8>, u8)>;

/// The byte strings of a seed list.
pub open spec fn seeds_view(seeds: Seq<Vec<u8>>) -> Seq<Seq<u8>> {
    seeds.map_values(|s: Vec<u8>| s@)
}

/// Relies on solana_program's Pubkey::try_find_program_address: the result is
/// a pure function of the seed list and the owning program id alone, and the
/// returned address is 32 bytes.
#[verifier::external_body]
fn pda_lookup(seeds: &Vec<Vec<u8>>, owner: &Address) -> (r: Option<(Address, u8)>)
    requires
        owner.wf(),
    ensures
        (r matches Some(p) ==> pda_of(seeds_view(seeds@), owner@) == Some((p.0@, p.1))
            && p.0.wf()),
        (r is None ==> pda_of(seeds_view(seeds@), owner@) is None),
{
    let seed_refs: Vec<&[u8]> = seeds.iter().map(|s| s.as_slice()).collect();
    let owner_arr: [u8; 32] = owner.bytes.as_slice().try_into().ok()?;
    let owner_key = solana_program::pubkey::Pubkey::new_from_array(owner_arr);
    let (key, bump) =
        solana_program::pubkey::Pubkey::try_find_program_address(&seed_refs, &owner_key)?;
    Some((Address { bytes: key.to_bytes().to_vec() }, bump))
}

/// Derive the address for a seed list under an owning program, or report that
/// no viable derivation exists.
pub fn derive_address(seeds: &Vec<Vec<u8>>, owner: &Address) -> (r: Result<
    (Address, u8),
    FractionError,
>)
    requires
        owner.wf(),
    ensures
        (r matches Ok(p) ==> pda_of(seeds_view(seeds@), owner@) == Some((p.0@, p.1)) && p.0.wf()),
        (r matches Err(e) ==> pda_of(seeds_view(seeds@), owner@) is None && e
            == FractionError::DerivationMismatch),
{
    match pda_lookup(seeds, owner) {
        Some(p) => Ok(p),
        None => Err(FractionError::DerivationMismatch),
    }
}

/// Authenticate a supplied address against its derivation: accepted, with
/// the bump discriminant, exactly when it equals the address derived from
/// the seed list under the owning program; any mismatch is fatal.
pub fn assert_derivation(seeds: &Vec<Vec<u8>>, owner: &Address, candidate: &Address) -> (r: Result<
    u8,
    FractionError,
>)
    requires
        owner.wf(),
    ensures
        (r matches Ok(b) ==> pda_of(seeds_view(seeds@), owner@) matches Some(p) && p.0
            == candidate@ && p.1 == b),
        (r is Ok ==> candidate.wf()),
        (r is Err ==> !(pda_of(seeds_view(seeds@), owner@) matches Some(p) && p.0 == candidate@)),
        (r matches Err(e) ==> e == FractionError::DerivationMismatch),
{
    let derived = match pda_lookup(seeds, owner) {
        Some(p) => p,
        None => {
            return Err(FractionError::DerivationMismatch);
        },
    };
    if !derived.0.eq_addr(candidate) {
        return Err(FractionError::DerivationMismatch);
    }
    Ok(derived.1)
}

/// The seed tag that opens every address derived by this program: the bytes
/// of the word "metaplex".
pub open spec fn spec_prefix_seed() -> Seq<u8> {
    seq![0x6du8, 0x65u8, 0x74u8, 0x61u8, 0x70u8, 0x6cu8, 0x65u8, 0x78u8]
}

/// The seed tag that opens every address derived by the asset-metadata
/// subsystem: the bytes of the word "metadata".
pub open spec fn spec_metadata_prefix_seed() -> Seq<u8> {
    seq![0x6du8, 0x65u8, 0x74u8, 0x61u8, 0x64u8, 0x61u8, 0x74u8, 0x61u8]
}

/// The seed tag that closes an edition derivation: the bytes of the word
/// "edition".
pub open spec fn spec_edition_tag_seed() -> Seq<u8> {
    seq![0x65u8, 0x64u8, 0x69u8, 0x74u8, 0x69u8, 0x6fu8, 0x6eu8]
}

pub fn prefix_seed() -> (r: Vec<u8>)
    ensures
        r@ == spec_prefix_seed(),
{
    let r: Vec<u8> = vec![0x6du8, 0x65u8, 0x74u8, 0x61u8, 0x70u8, 0x6cu8, 0x65u8, 0x78u8];
    proof {
        assert(r@ =~= spec_prefix_seed());
    }
    r
}

pub fn metadata_prefix_seed() -> (r: Vec<u8>)
    ensures
        r@ == spec_metadata_prefix_seed(),
{
    let r: Vec<u8> = vec![0x6du8, 0x65u8, 0x74u8, 0x61u8, 0x64u8, 0x61u8, 0x74u8, 0x61u8];
    proof {
        assert(r@ =~= spec_metadata_prefix_seed());
    }
    r
}

pub fn edition_tag_seed() -> (r: Vec<u8>)
    ensures
        r@ == spec_edition_tag_seed(),
{
    let r: Vec<u8> = vec![0x65u8, 0x64u8, 0x69u8, 0x74u8, 0x69u8, 0x6fu8, 0x6eu8];
    proof {
        assert(r@ =~= spec_edition_tag_seed());
    }
    r
}

/// Seeds of a slot's configuration record: prefix, program, manager, slot.
pub open spec fn spec_config_seeds(program_id: Seq<u8>, manager: Seq<u8>, slot: Seq<u8>) -> Seq<
    Seq<u8>,
> {
    seq![spec_prefix_seed(), program_id, manager, slot]
}

pub fn config_seeds(program_id: &Address, manager: &Address, slot: &Address) -> (r: Vec<Vec<u8>>)
    ensures
        seeds_view(r@) == spec_config_seeds(program_id@, manager@, slot@),
{
    let mut r: Vec<Vec<u8>> = Vec::new();
    r.push(prefix_seed());
    r.push(copy_bytes(&program_id.bytes));
    r.push(copy_bytes(&manager.bytes));
    r.push(copy_bytes(&slot.bytes));
    proof {
        assert(seeds_view(r@) =~= spec_config_seeds(program_id@, manager@, slot@));
    }
    r
}

/// Seeds of the manager's own derived authority: prefix, vault.
pub open spec fn spec_authority_seeds(vault: Seq<u8>) -> Seq<Seq<u8>> {
    seq![spec_prefix_seed(), vault]
}

pub fn authority_seeds(vault: &Address) -> (r: Vec<Vec<u8>>)
    ensures
        seeds_view(r@) == spec_authority_seeds(vault@),
{
    let mut r: Vec<Vec<u8>> = Vec::new();
    r.push(prefix_seed());
    r.push(copy_bytes(&vault.bytes));
    proof {
        assert(seeds_view(r@) =~= spec_authority_seeds(vault@));
    }
    r
}

/// Seeds of a slot's authority-lookup record: prefix, vault, asset metadata.
pub open spec fn spec_lookup_seeds(vault: Seq<u8>, metadata: Seq<u8>) -> Seq<Seq<u8>> {
    seq![spec_prefix_seed(), vault, metadata]
}

pub fn lookup_seeds(vault: &Address, metadata: &Address) -> (r: Vec<Vec<u8>>)
    ensures
        seeds_view(r@) == spec_lookup_seeds(vault@, metadata@),
{
    let mut r: Vec<Vec<u8>> = Vec::new();
    r.push(prefix_seed());
    r.push(copy_bytes(&vault.bytes));
    r.push(copy_bytes(&metadata.bytes));
    proof {
        assert(seeds_view(r@) =~= spec_lookup_seeds(vault@, metadata@));
    }
    r
}

/// Seeds of an asset's edition record: metadata prefix, metadata program,
/// asset mint, edition tag.
pub open spec fn spec_edition_seeds(metadata_program: Seq<u8>, mint: Seq<u8>) -> Seq<Seq<u8>> {
    seq![spec_metadata_prefix_seed(), metadata_program, mint, spec_edition_tag_seed()]
}

pub fn edition_seeds(metadata_program: &Address, mint: &Address) -> (r: Vec<Vec<u8>>)
    ensures
        seeds_view(r@) == spec_edition_seeds(metadata_program@, mint@),
{
    let mut r: Vec<Vec<u8>> = Vec::new();
    r.push(metadata_prefix_seed());
    r.push(copy_bytes(&metadata_program.bytes));
    r.push(copy_bytes(&mint.bytes));
    r.push(edition_tag_seed());
    proof {
        assert(seeds_view(r@) =~= spec_edition_seeds(metadata_program@, mint@));
    }
    r
}

} // verus!
