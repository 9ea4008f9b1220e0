use vstd::prelude::*;

use crate::encode::{encode_u64_le, u64_le_bytes, lemma_u64_le_bytes_injective};
use crate::identity::AccountId;

verus! {

/// What `Pubkey::try_find_program_address` returns for given seeds and
/// program id: the derived address and its bump, or nothing when no bump
/// yields a valid address.
pub uninterp spec fn found_program_address(seeds: Seq<Seq<u8>>, program_id: Seq<u8>) -> Option<
    (Seq<u8>, u8),
>;

/// What `Pubkey::create_program_address` returns for given seeds and program
/// id: the derived address, or nothing when the seeds are rejected.
pub uninterp spec fn created_program_address(seeds: Seq<Seq<u8>>, program_id: Seq<u8>) -> Option<
    Seq<u8>,
>;

/// Relies on `Pubkey::try_find_program_address` (solana-pubkey): the result is
/// a deterministic function of the seeds and the program id alone (a SHA-256
/// search over bump bytes). When it finds a pair, its source returns the first
/// bump that `create_program_address` accepts, so re-deriving with that bump
/// appended as one extra single-byte seed yields the same address.
#[verifier::external_body]
fn find_program_address_raw(seeds: &Vec<Vec<u8>>, program_id: &AccountId) -> (r: Option<
    (AccountId, u8),
>)
    ensures
        (match r {
            Some(p) => found_program_address(seeds.deep_view(), program_id@) == Some((p.0@, p.1))
                && created_program_address(seeds.deep_view().push(seq![p.1]), program_id@) == Some(
                p.0@,
            ),
            None => found_program_address(seeds.deep_view(), program_id@) is None,
        }),
{
    let pid = anchor_lang::solana_program::pubkey::Pubkey::new_from_array(program_id.to_bytes());
    let seed_refs: Vec<&[u8]> = seeds.iter().map(|s| s.as_slice()).collect();
    anchor_lang::solana_program::pubkey::Pubkey::try_find_program_address(&seed_refs, &pid).map(
        |p: (anchor_lang::solana_program::pubkey::Pubkey, u8)|
            (AccountId::new(p.0.to_bytes()), p.1),
    )
}

/// Relies on `Pubkey::create_program_address` (solana-pubkey): the result is a
/// deterministic function of the seeds and the program id alone (a SHA-256
/// digest, rejected when it lies on the ed25519 curve or a seed is too long);
/// the error cases depend on the same arguments alone.
#[verifier::external_body]
fn create_program_address_raw(seeds: &Vec<Vec<u8>>, program_id: &AccountId) -> (r: Option<
    AccountId,
>)
    ensures
        (match r {
            Some(a) => created_program_address(seeds.deep_view(), program_id@) == Some(a@),
            None => created_program_address(seeds.deep_view(), program_id@) is None,
        }),
{
    let pid = anchor_lang::solana_program::pubkey::Pubkey::new_from_array(program_id.to_bytes());
    let seed_refs: Vec<&[u8]> = seeds.iter().map(|s| s.as_slice()).collect();
    anchor_lang::solana_program::pubkey::Pubkey::create_program_address(&seed_refs, &pid).ok().map(
        |a: anchor_lang::solana_program::pubkey::Pubkey| AccountId::new(a.to_bytes()),
    )
}

/// The fixed tag that opens every record's seed list: the ASCII bytes of
/// "deal".
pub open spec fn deal_tag() -> Seq<u8> {
    seq![100u8, 101u8, 97u8, 108u8]
}

/// The seed list a record's address is derived from: the fixed tag, the
/// buyer's key, the seller's key, and the deal identifier in little-endian
/// bytes.
pub open spec fn record_seeds(buyer: Seq<u8>, seller: Seq<u8>, deal_id: u64) -> Seq<Seq<u8>> {
    seq![deal_tag(), buyer, seller, u64_le_bytes(deal_id)]
}

/// The seed list used to re-verify a record's address: the creation seeds
/// with the recorded bump appended as one extra single-byte seed.
pub open spec fn record_seeds_with_bump(
    buyer: Seq<u8>,
    seller: Seq<u8>,
    deal_id: u64,
    bump: u8,
) -> Seq<Seq<u8>> {
    record_seeds(buyer, seller, deal_id).push(seq![bump])
}

fn build_record_seeds(buyer: &AccountId, seller: &AccountId, deal_id: u64) -> (r: Vec<Vec<u8>>)
    ensures
        r.deep_view() == record_seeds(buyer@, seller@, deal_id),
{
    let tag: Vec<u8> = vec![100u8, 101u8, 97u8, 108u8];
    let buyer_bytes: Vec<u8> = vstd::slice::slice_to_vec(&buyer.bytes);
    let seller_bytes: Vec<u8> = vstd::slice::slice_to_vec(&seller.bytes);
    let id_bytes: Vec<u8> = encode_u64_le(deal_id);
    let mut r: Vec<Vec<u8>> = Vec::new();
    r.push(tag);
    r.push(buyer_bytes);
    r.push(seller_bytes);
    r.push(id_bytes);
    proof {
        assert(r.deep_view() =~~= record_seeds(buyer@, seller@, deal_id));
    }
    r
}

/// Derive the address of the record for `(buyer, seller, deal_id)` under
/// `program_id`, together with the bump that makes the derivation land on a
/// valid address. The result is a deterministic function of the four
/// arguments, and re-deriving with the returned bump through
/// `verify_record_address` yields the same address.
pub fn derive_record_address(
    program_id: &AccountId,
    buyer: &AccountId,
    seller: &AccountId,
    deal_id: u64,
) -> (r: Option<(AccountId, u8)>)
    ensures
        (match r {
            Some(p) => found_program_address(record_seeds(buyer@, seller@, deal_id), program_id@)
                == Some((p.0@, p.1)) && created_program_address(
                record_seeds_with_bump(buyer@, seller@, deal_id, p.1),
                program_id@,
            ) == Some(p.0@),
            None => found_program_address(record_seeds(buyer@, seller@, deal_id), program_id@)
                is None,
        }),
{
    let seeds = build_record_seeds(buyer, seller, deal_id);
    find_program_address_raw(&seeds, program_id)
}

/// Re-derive the record address for `(buyer, seller, deal_id)` with a
/// recorded bump and report whether it equals `expected`.
pub fn verify_record_address(
    program_id: &AccountId,
    buyer: &AccountId,
    seller: &AccountId,
    deal_id: u64,
    bump: u8,
    expected: &AccountId,
) -> (r: bool)
    ensures
        r <==> created_program_address(
            record_seeds_with_bump(buyer@, seller@, deal_id, bump),
            program_id@,
        ) == Some(expected@),
{
    let mut seeds = build_record_seeds(buyer, seller, deal_id);
    let bump_seed: Vec<u8> = vec![bump];
    seeds.push(bump_seed);
    proof {
        assert(seeds.deep_view() =~~= record_seeds_with_bump(buyer@, seller@, deal_id, bump));
    }
    match create_program_address_raw(&seeds, program_id) {
        Some(a) => a.eq_key(expected),
        None => false,
    }
}

/// No two distinct triples share a seed list: the seed encoding itself is
/// injective, so a collision of derived addresses could only come from a
/// collision of the underlying hash.
pub proof fn lemma_record_seeds_injective(
    b1: Seq<u8>,
    s1: Seq<u8>,
    i1: u64,
    b2: Seq<u8>,
    s2: Seq<u8>,
    i2: u64,
)
    requires
        record_seeds(b1, s1, i1) == record_seeds(b2, s2, i2),
    ensures
        b1 == b2,
        s1 == s2,
        i1 == i2,
{
    assert(record_seeds(b1, s1, i1)[1] == record_seeds(b2, s2, i2)[1]);
    assert(record_seeds(b1, s1, i1)[2] == record_seeds(b2, s2, i2)[2]);
    assert(record_seeds(b1, s1, i1)[3] == record_seeds(b2, s2, i2)[3]);
    lemma_u64_le_bytes_injective(i1, i2);
}

} // verus!
