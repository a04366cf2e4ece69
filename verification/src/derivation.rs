//! Where an offer and its vault live: addresses derived from the offer's
//! identity.
//!
//! The record of an offer lives at the address derived from its creator and
//! its `offer_id`, and its vault at the address derived from the record's.
//! Both are derived for the program that keeps the offers, so the same
//! identity always leads to the same two accounts.

use vstd::prelude::*;
use vstd::bytes::{lemma_auto_spec_u64_to_from_le_bytes, spec_u64_to_le_bytes, u64_to_le_bytes};
use crate::address::Address;
use crate::offer::Offer;

verus! {

/// The derived address for `seeds` under `program_id` and the bump seed that
/// was appended to find it, or `None` where no bump seed leads to one.
///
/// Stands for what `Pubkey::try_find_program_address` returns, which depends
/// on a SHA-256 digest and a curve test and on nothing but its arguments.
pub uninterp spec fn program_address(seeds: Seq<Seq<u8>>, program_id: Seq<u8>) -> Option<
    (Seq<u8>, u8),
>;

/// The bytes `offer`, which start the seeds of every offer record.
pub open spec fn offer_tag() -> Seq<u8> {
    seq![111u8, 102u8, 102u8, 101u8, 114u8]
}

/// The bytes `vault`, which start the seeds of every vault.
pub open spec fn vault_tag() -> Seq<u8> {
    seq![118u8, 97u8, 117u8, 108u8, 116u8]
}

/// The seeds of an offer record: the tag, the creator, and the `offer_id` as
/// eight bytes, least significant first.
pub open spec fn offer_seeds(creator: Address, offer_id: u64) -> Seq<Seq<u8>> {
    seq![offer_tag(), creator@, spec_u64_to_le_bytes(offer_id)]
}

/// The seeds of a vault: the tag and the address of its offer record.
pub open spec fn vault_seeds(offer_key: Address) -> Seq<Seq<u8>> {
    seq![vault_tag(), offer_key@]
}

/// The seeds with which an offer record signs for its vault: its own seeds
/// followed by its bump seed.
pub open spec fn signer_seeds(offer: Offer) -> Seq<Seq<u8>> {
    offer_seeds(offer.creator, offer.offer_id).push(seq![offer.bump])
}

/// The seeds held in `seeds`, each as the sequence of its bytes.
pub open spec fn seeds_view(seeds: Seq<Vec<u8>>) -> Seq<Seq<u8>> {
    seeds.map_values(|seed: Vec<u8>| seed@)
}

/// A derived address and its bump seed, the address as its bytes.
pub open spec fn derived_view(derived: Option<(Address, u8)>) -> Option<(Seq<u8>, u8)> {
    match derived {
        Some((address, bump)) => Some((address@, bump)),
        None => None,
    }
}

/// Calls `Pubkey::try_find_program_address` of `anchor_lang`.
///
/// Trusted: the result is the named `program_address` of the seeds and the
/// program's address. Nothing is claimed about which address that is. The
/// outside function returns `None` rather than panic when there are too many
/// seeds, a seed is too long, or no bump seed fits.
#[verifier::external_body]
fn try_find_program_address(seeds: &Vec<Vec<u8>>, program_id: &Address) -> (derived: Option<
    (Address, u8),
>)
    ensures
        derived_view(derived) == program_address(seeds_view(seeds@), program_id@),
{
    let parts: Vec<&[u8]> = seeds.iter().map(|seed| seed.as_slice()).collect();
    let program = anchor_lang::prelude::Pubkey::new_from_array(program_id.bytes);
    match anchor_lang::prelude::Pubkey::try_find_program_address(&parts, &program) {
        Some((key, bump)) => Some((Address { bytes: key.to_bytes() }, bump)),
        None => None,
    }
}

/// The tag `offer` as bytes.
fn offer_tag_bytes() -> (tag: Vec<u8>)
    ensures
        tag@ == offer_tag(),
{
    let mut tag: Vec<u8> = Vec::new();
    tag.push(111u8);
    tag.push(102u8);
    tag.push(102u8);
    tag.push(101u8);
    tag.push(114u8);
    assert(tag@ =~= offer_tag());
    tag
}

/// The tag `vault` as bytes.
fn vault_tag_bytes() -> (tag: Vec<u8>)
    ensures
        tag@ == vault_tag(),
{
    let mut tag: Vec<u8> = Vec::new();
    tag.push(118u8);
    tag.push(97u8);
    tag.push(117u8);
    tag.push(108u8);
    tag.push(116u8);
    assert(tag@ =~= vault_tag());
    tag
}

/// Builds the seeds of the offer record of `creator` numbered `offer_id`.
pub fn offer_seeds_of(creator: &Address, offer_id: u64) -> (seeds: Vec<Vec<u8>>)
    ensures
        seeds_view(seeds@) == offer_seeds(*creator, offer_id),
{
    let mut seeds: Vec<Vec<u8>> = Vec::new();
    seeds.push(offer_tag_bytes());
    seeds.push(creator.to_vec());
    seeds.push(u64_to_le_bytes(offer_id));
    assert(seeds_view(seeds@) =~= offer_seeds(*creator, offer_id));
    seeds
}

/// Builds the seeds of the vault of the offer record at `offer_key`.
pub fn vault_seeds_of(offer_key: &Address) -> (seeds: Vec<Vec<u8>>)
    ensures
        seeds_view(seeds@) == vault_seeds(*offer_key),
{
    let mut seeds: Vec<Vec<u8>> = Vec::new();
    seeds.push(vault_tag_bytes());
    seeds.push(offer_key.to_vec());
    assert(seeds_view(seeds@) =~= vault_seeds(*offer_key));
    seeds
}

/// Builds the seeds with which `offer` signs for its vault.
pub fn signer_seeds_of(offer: &Offer) -> (seeds: Vec<Vec<u8>>)
    ensures
        seeds_view(seeds@) == signer_seeds(*offer),
{
    let mut seeds = offer_seeds_of(&offer.creator, offer.offer_id);
    let mut bump: Vec<u8> = Vec::new();
    bump.push(offer.bump);
    assert(bump@ =~= seq![offer.bump]);
    seeds.push(bump);
    assert(seeds_view(seeds@) =~= signer_seeds(*offer));
    seeds
}

/// Derives the address of the offer record of `creator` numbered `offer_id`
/// under `program_id`, with its bump seed.
pub fn derive_offer_address(program_id: &Address, creator: &Address, offer_id: u64) -> (derived:
    Option<(Address, u8)>)
    ensures
        derived_view(derived) == program_address(offer_seeds(*creator, offer_id), program_id@),
{
    let seeds = offer_seeds_of(creator, offer_id);
    try_find_program_address(&seeds, program_id)
}

/// Derives the address of the vault of the offer record at `offer_key` under
/// `program_id`, with its bump seed.
pub fn derive_vault_address(program_id: &Address, offer_key: &Address) -> (derived: Option<
    (Address, u8),
>)
    ensures
        derived_view(derived) == program_address(vault_seeds(*offer_key), program_id@),
{
    let seeds = vault_seeds_of(offer_key);
    try_find_program_address(&seeds, program_id)
}

/// Offers with different identities have different seeds: the seeds of an
/// offer record determine its creator and its `offer_id`.
pub proof fn lemma_offer_seeds_injective(
    creator_a: Address,
    offer_id_a: u64,
    creator_b: Address,
    offer_id_b: u64,
)
    requires
        offer_seeds(creator_a, offer_id_a) == offer_seeds(creator_b, offer_id_b),
    ensures
        creator_a == creator_b,
        offer_id_a == offer_id_b,
{
    let a = offer_seeds(creator_a, offer_id_a);
    let b = offer_seeds(creator_b, offer_id_b);
    assert(a[1] == creator_a@ && b[1] == creator_b@);
    assert(a[2] == spec_u64_to_le_bytes(offer_id_a) && b[2] == spec_u64_to_le_bytes(offer_id_b));
    Address::lemma_view(creator_a, creator_b);
    lemma_auto_spec_u64_to_from_le_bytes();
}

} // verus!
