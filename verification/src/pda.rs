//! Program-derived addresses: addresses computed from seed bytes and a
//! program's address, which no private key controls.

use vstd::prelude::*;
use vstd::slice::slice_to_vec;
use solana_program::pubkey::Pubkey;
use crate::address::{Address, ASSOCIATED_TOKEN_PROGRAM, TOKEN_PROGRAM};

verus! {

/// The seed label `metadata`.
pub const METADATA_LABEL: [u8; 8] = [109, 101, 116, 97, 100, 97, 116, 97];

/// The seed label `edition`.
pub const EDITION_LABEL: [u8; 7] = [101, 100, 105, 116, 105, 111, 110];

/// The seed label `collection`.
pub const COLLECTION_LABEL: [u8; 10] = [99, 111, 108, 108, 101, 99, 116, 105, 111, 110];

/// The seed label `candy_machine`.
pub const CREATOR_LABEL: [u8; 13] = [99, 97, 110, 100, 121, 95, 109, 97, 99, 104, 105, 110, 101];

/// The seed label `collection_authority`.
pub const COLLECTION_AUTHORITY_LABEL: [u8; 20] = [
    99, 111, 108, 108, 101, 99, 116, 105, 111, 110,
    95, 97, 117, 116, 104, 111, 114, 105, 116, 121,
];

/// A derived address with the bump seed that completes its seeds.
pub type DerivedAddress = (Address, u8);

/// The address and bump seed that the ledger derives from `seeds` under
/// `program`, or `None` where it derives none: with sixteen seeds or more,
/// with a seed of more than 32 bytes, or where no bump seed gives an address
/// off the curve.
pub uninterp spec fn program_address(seeds: Seq<Seq<u8>>, program: Seq<u8>) -> Option<(Seq<u8>, u8)>;

/// The bytes of each seed.
pub open spec fn seed_bytes(seeds: Seq<Vec<u8>>) -> Seq<Seq<u8>> {
    Seq::new(seeds.len(), |i: int| seeds[i]@)
}

/// A derived address and bump seed, the address as its bytes.
pub open spec fn pda_view(found: Option<DerivedAddress>) -> Option<(Seq<u8>, u8)> {
    match found {
        Some((address, bump)) => Some((address@, bump)),
        None => None,
    }
}

/// A derived address as its bytes.
pub open spec fn address_view(found: Option<Address>) -> Option<Seq<u8>> {
    match found {
        Some(address) => Some(address@),
        None => None,
    }
}

/// The address part of a derivation.
pub open spec fn address_of(derived: Option<(Seq<u8>, u8)>) -> Option<Seq<u8>> {
    match derived {
        Some((address, _)) => Some(address),
        None => None,
    }
}

/// Calls `Pubkey::try_find_program_address` of `solana_program`. The result
/// is a function of the seeds and the program's address alone, and the call
/// returns `None` rather than panic where no address can be derived.
#[verifier::external_body]
pub(crate) fn find_program_address(
    seeds: &Vec<Vec<u8>>,
    program: &Address,
) -> (found: Option<DerivedAddress>)
    ensures
        pda_view(found) == program_address(seed_bytes(seeds@), program@),
{
    let parts: Vec<&[u8]> = seeds.iter().map(|seed| seed.as_slice()).collect();
    Pubkey::try_find_program_address(&parts, &Pubkey::new_from_array(program.bytes))
        .map(|(key, bump)| (Address { bytes: key.to_bytes() }, bump))
}

/// The record that links a sale to its collection: seeds `collection` and
/// the sale's address, under the candy-machine program.
pub open spec fn collection_pda(sale_id: Seq<u8>, program: Seq<u8>) -> Option<(Seq<u8>, u8)> {
    program_address(seq![COLLECTION_LABEL@, sale_id], program)
}

/// The creator address of a sale, which signs for the items it mints: seeds
/// `candy_machine` and the sale's address, under the candy-machine program.
pub open spec fn creator_pda(sale_id: Seq<u8>, program: Seq<u8>) -> Option<(Seq<u8>, u8)> {
    program_address(seq![CREATOR_LABEL@, sale_id], program)
}

/// The metadata account of a mint: seeds `metadata`, the token-metadata
/// program's address and the mint, under the token-metadata program.
pub open spec fn metadata_pda(mint: Seq<u8>, program: Seq<u8>) -> Option<(Seq<u8>, u8)> {
    program_address(seq![METADATA_LABEL@, program, mint], program)
}

/// The master-edition account of a mint: the metadata seeds followed by
/// `edition`, under the token-metadata program.
pub open spec fn master_edition_pda(mint: Seq<u8>, program: Seq<u8>) -> Option<(Seq<u8>, u8)> {
    program_address(seq![METADATA_LABEL@, program, mint, EDITION_LABEL@], program)
}

/// The record that lets `authority` add items to the collection of
/// `collection_mint`: the collection's metadata seeds followed by
/// `collection_authority` and the authority, under the token-metadata
/// program.
pub open spec fn collection_authority_pda(
    collection_mint: Seq<u8>,
    authority: Seq<u8>,
    program: Seq<u8>,
) -> Option<(Seq<u8>, u8)> {
    program_address(
        seq![METADATA_LABEL@, program, collection_mint, COLLECTION_AUTHORITY_LABEL@, authority],
        program,
    )
}

/// The token account that `wallet` holds for `mint` by convention: seeds
/// wallet, token program and mint, under the associated-token-account
/// program.
pub open spec fn associated_token_address(wallet: Seq<u8>, mint: Seq<u8>) -> Option<Seq<u8>> {
    address_of(
        program_address(seq![wallet, TOKEN_PROGRAM@, mint], ASSOCIATED_TOKEN_PROGRAM@),
    )
}

/// Derives the address of the record that links the sale `candy_machine_id`
/// to its collection, with its bump seed.
pub fn find_collection_pda(
    candy_machine_id: &Address,
    program: &Address,
) -> (found: Option<DerivedAddress>)
    ensures
        pda_view(found) == collection_pda(candy_machine_id@, program@),
{
    let seeds: Vec<Vec<u8>> = vec![
        slice_to_vec(COLLECTION_LABEL.as_slice()),
        candy_machine_id.to_vec(),
    ];
    assert(seed_bytes(seeds@) =~= seq![COLLECTION_LABEL@, candy_machine_id@]);
    find_program_address(&seeds, program)
}

/// Derives the creator address of the sale `candy_machine_id`, with the bump
/// seed that the mint instruction carries.
pub fn find_candy_machine_creator_pda(
    candy_machine_id: &Address,
    program: &Address,
) -> (found: Option<DerivedAddress>)
    ensures
        pda_view(found) == creator_pda(candy_machine_id@, program@),
{
    let seeds: Vec<Vec<u8>> = vec![
        slice_to_vec(CREATOR_LABEL.as_slice()),
        candy_machine_id.to_vec(),
    ];
    assert(seed_bytes(seeds@) =~= seq![CREATOR_LABEL@, candy_machine_id@]);
    find_program_address(&seeds, program)
}

/// Derives the metadata account of `mint`.
pub fn find_metadata_pda(mint: &Address, program: &Address) -> (found: Option<Address>)
    ensures
        address_view(found) == address_of(metadata_pda(mint@, program@)),
{
    let seeds: Vec<Vec<u8>> = vec![
        slice_to_vec(METADATA_LABEL.as_slice()),
        program.to_vec(),
        mint.to_vec(),
    ];
    assert(seed_bytes(seeds@) =~= seq![METADATA_LABEL@, program@, mint@]);
    match find_program_address(&seeds, program) {
        Some((address, _)) => Some(address),
        None => None,
    }
}

/// Derives the master-edition account of `mint`.
pub fn find_master_edition_pda(mint: &Address, program: &Address) -> (found: Option<Address>)
    ensures
        address_view(found) == address_of(master_edition_pda(mint@, program@)),
{
    let seeds: Vec<Vec<u8>> = vec![
        slice_to_vec(METADATA_LABEL.as_slice()),
        program.to_vec(),
        mint.to_vec(),
        slice_to_vec(EDITION_LABEL.as_slice()),
    ];
    assert(seed_bytes(seeds@) =~= seq![METADATA_LABEL@, program@, mint@, EDITION_LABEL@]);
    match find_program_address(&seeds, program) {
        Some((address, _)) => Some(address),
        None => None,
    }
}

/// Derives the record that lets `authority` add items to the collection of
/// `collection_mint`, with its bump seed.
pub fn find_collection_authority_account(
    collection_mint: &Address,
    authority: &Address,
    program: &Address,
) -> (found: Option<DerivedAddress>)
    ensures
        pda_view(found) == collection_authority_pda(collection_mint@, authority@, program@),
{
    let seeds: Vec<Vec<u8>> = vec![
        slice_to_vec(METADATA_LABEL.as_slice()),
        program.to_vec(),
        collection_mint.to_vec(),
        slice_to_vec(COLLECTION_AUTHORITY_LABEL.as_slice()),
        authority.to_vec(),
    ];
    assert(seed_bytes(seeds@) =~= seq![
        METADATA_LABEL@,
        program@,
        collection_mint@,
        COLLECTION_AUTHORITY_LABEL@,
        authority@,
    ]);
    find_program_address(&seeds, program)
}

/// Derives the token account that `wallet` holds for `mint` by convention.
pub fn get_associated_token_address(wallet: &Address, mint: &Address) -> (found: Option<Address>)
    ensures
        address_view(found) == associated_token_address(wallet@, mint@),
{
    let token_program = Address::new(TOKEN_PROGRAM);
    let program = Address::new(ASSOCIATED_TOKEN_PROGRAM);
    let seeds: Vec<Vec<u8>> = vec![wallet.to_vec(), token_program.to_vec(), mint.to_vec()];
    assert(seed_bytes(seeds@) =~= seq![wallet@, TOKEN_PROGRAM@, mint@]);
    match find_program_address(&seeds, &program) {
        Some((address, _)) => Some(address),
        None => None,
    }
}

/// Derivation is deterministic: whatever two derivations from the same seeds
/// under the same program return, they return the same address and the same
/// bump seed, or both return nothing.
pub proof fn derivation_is_deterministic(
    seeds: Seq<Seq<u8>>,
    program: Seq<u8>,
    first: Option<DerivedAddress>,
    second: Option<DerivedAddress>,
)
    requires
        pda_view(first) == program_address(seeds, program),
        pda_view(second) == program_address(seeds, program),
    ensures
        first == second,
{
    if let Some((a, _)) = first {
        if let Some((b, _)) = second {
            assert(a.bytes@ == b.bytes@);
            assert(a.bytes =~= b.bytes);
        }
    }
}

} // verus!
