use vstd::prelude::*;
use vstd::string::StringSliceAdditionalSpecFns;

use crate::address::Address;
use crate::error::ErrorCode;

verus! {

/// The program-derived address and bump that the ledger runtime computes for
/// `seeds` under `program_id`, or `None` where no bump yields a valid address.
pub uninterp spec fn program_address(seeds: Seq<Seq<u8>>, program_id: Seq<u8>) -> Option<(Seq<u8>, u8)>;

/// Relies on `Pubkey::try_find_program_address` (solana-program, re-exported by
/// anchor-lang): a deterministic function of the seeds and program id, which
/// returns `None` rather than panicking when no bump is found.
#[verifier::external_body]
fn try_find_program_address(seeds: &Vec<Vec<u8>>, program_id: &Address) -> (r: Option<(Address, u8)>)
    ensures
        program_address(seeds.deep_view(), program_id@) == match r {
            Some(p) => Some((p.0@, p.1)),
            None => None,
        },
{
    let refs: Vec<&[u8]> = seeds.iter().map(|s| s.as_slice()).collect();
    let pid = anchor_lang::prelude::Pubkey::new_from_array(program_id.bytes);
    anchor_lang::prelude::Pubkey::try_find_program_address(&refs, &pid)
        .map(|(key, bump)| (Address { bytes: key.to_bytes() }, bump))
}

} // verus!

verus! {

/// Seeds of the collection record's address.
pub open spec fn program_data_seeds() -> Seq<Seq<u8>> {
    seq!["program_data".spec_bytes()]
}

/// Seeds of the signing authority of one token: the label, then the token's
/// own address.
pub open spec fn mint_authority_seeds(mint: Seq<u8>) -> Seq<Seq<u8>> {
    seq!["mint_authority".spec_bytes(), mint]
}

/// The bump under which `declared` is the address derived from `seeds`, or
/// `AuthorityMismatch` where it is not that address.
pub open spec fn derivation_check(seeds: Seq<Seq<u8>>, program_id: Seq<u8>, declared: Seq<u8>) -> Result<u8, ErrorCode> {
    match program_address(seeds, program_id) {
        Some(p) => if p.0 == declared {
            Ok(p.1)
        } else {
            Err(ErrorCode::AuthorityMismatch)
        },
        None => Err(ErrorCode::AuthorityMismatch),
    }
}

pub open spec fn address_view(r: Option<(Address, u8)>) -> Option<(Seq<u8>, u8)> {
    match r {
        Some(p) => Some((p.0@, p.1)),
        None => None,
    }
}

pub fn program_data_seed_vec() -> (r: Vec<Vec<u8>>)
    ensures
        r.deep_view() == program_data_seeds(),
{
    let label = vstd::slice::slice_to_vec("program_data".as_bytes());
    assert(label.deep_view() =~= label@);
    let mut seeds: Vec<Vec<u8>> = Vec::new();
    seeds.push(label);
    assert(seeds.deep_view() =~= program_data_seeds());
    seeds
}

pub fn mint_authority_seed_vec(mint: &Address) -> (r: Vec<Vec<u8>>)
    ensures
        r.deep_view() == mint_authority_seeds(mint@),
{
    let label = vstd::slice::slice_to_vec("mint_authority".as_bytes());
    let key = mint.to_vec();
    assert(label.deep_view() =~= label@);
    assert(key.deep_view() =~= key@);
    let mut seeds: Vec<Vec<u8>> = Vec::new();
    seeds.push(label);
    seeds.push(key);
    assert(seeds.deep_view() =~= mint_authority_seeds(mint@));
    seeds
}

/// The address and bump of the collection record under `program_id`.
pub fn find_program_data_address(program_id: &Address) -> (r: Option<(Address, u8)>)
    ensures
        address_view(r) == program_address(program_data_seeds(), program_id@),
{
    let seeds = program_data_seed_vec();
    try_find_program_address(&seeds, program_id)
}

/// The address and bump of the signing authority of the token `mint`.
pub fn find_mint_authority_address(mint: &Address, program_id: &Address) -> (r: Option<(Address, u8)>)
    ensures
        address_view(r) == program_address(mint_authority_seeds(mint@), program_id@),
{
    let seeds = mint_authority_seed_vec(mint);
    try_find_program_address(&seeds, program_id)
}

/// Checks that `declared` is the address derived from `seeds` and returns its
/// bump.
pub fn check_derived(declared: &Address, seeds: &Vec<Vec<u8>>, program_id: &Address) -> (r: Result<u8, ErrorCode>)
    ensures
        r == derivation_check(seeds.deep_view(), program_id@, declared@),
{
    match try_find_program_address(seeds, program_id) {
        Some(p) => {
            if p.0.same_as(declared) {
                Ok(p.1)
            } else {
                Err(ErrorCode::AuthorityMismatch)
            }
        },
        None => Err(ErrorCode::AuthorityMismatch),
    }
}

} // verus!
