use solana_program::pubkey::Pubkey;
use sol::address::{
    Address, ASSOCIATED_TOKEN_PROGRAM, CANDY_MACHINE_PROGRAM, CLOCK_SYSVAR, INSTRUCTIONS_SYSVAR,
    RECENT_BLOCKHASHES_SYSVAR, RENT_SYSVAR, SYSTEM_PROGRAM, TOKEN_METADATA_PROGRAM, TOKEN_PROGRAM,
};
use sol::pda::{
    find_candy_machine_creator_pda, find_collection_authority_account, find_collection_pda,
    find_master_edition_pda, find_metadata_pda, get_associated_token_address, CREATOR_LABEL,
    COLLECTION_AUTHORITY_LABEL, COLLECTION_LABEL, EDITION_LABEL, METADATA_LABEL,
};

fn key(a: &Address) -> Pubkey {
    Pubkey::new_from_array(a.bytes)
}

fn sample(seed: u8) -> Address {
    let mut bytes = [0u8; 32];
    for (i, b) in bytes.iter_mut().enumerate() {
        *b = seed.wrapping_mul(31).wrapping_add(i as u8);
    }
    Address::new(bytes)
}

#[test]
fn well_known_addresses_are_the_ledgers() {
    assert_eq!(SYSTEM_PROGRAM, solana_program::system_program::id().to_bytes());
    assert_eq!(TOKEN_PROGRAM, spl_token::id().to_bytes());
    assert_eq!(ASSOCIATED_TOKEN_PROGRAM, spl_associated_token_account::id().to_bytes());
    assert_eq!(TOKEN_METADATA_PROGRAM, mpl_token_metadata::id().to_bytes());
    assert_eq!(CANDY_MACHINE_PROGRAM, mpl_candy_machine::id().to_bytes());
    assert_eq!(RENT_SYSVAR, solana_program::sysvar::rent::id().to_bytes());
    assert_eq!(CLOCK_SYSVAR, solana_program::sysvar::clock::id().to_bytes());
    assert_eq!(
        RECENT_BLOCKHASHES_SYSVAR,
        solana_program::sysvar::recent_blockhashes::id().to_bytes()
    );
    assert_eq!(INSTRUCTIONS_SYSVAR, solana_program::sysvar::instructions::id().to_bytes());
}

#[test]
fn well_known_addresses_read_as_published() {
    assert_eq!(key(&Address::new(SYSTEM_PROGRAM)).to_string(), "11111111111111111111111111111111");
    assert_eq!(
        key(&Address::new(TOKEN_PROGRAM)).to_string(),
        "TokenkegQfeZyiNwAJbNbGKPFXCWuBvf9Ss623VQ5DA"
    );
    assert_eq!(
        key(&Address::new(CANDY_MACHINE_PROGRAM)).to_string(),
        "cndy3Z4yapfJBmL3ShUp5exZKqR3z33thTzeNMm2gRZ"
    );
    assert_eq!(
        key(&Address::new(RECENT_BLOCKHASHES_SYSVAR)).to_string(),
        "SysvarRecentB1ockHashes11111111111111111111"
    );
}

#[test]
fn labels_spell_their_names() {
    assert_eq!(&METADATA_LABEL[..], b"metadata");
    assert_eq!(&EDITION_LABEL[..], b"edition");
    assert_eq!(&COLLECTION_LABEL[..], b"collection");
    assert_eq!(&CREATOR_LABEL[..], b"candy_machine");
    assert_eq!(&COLLECTION_AUTHORITY_LABEL[..], b"collection_authority");
    assert_eq!(&METADATA_LABEL[..], mpl_token_metadata::pda::PREFIX.as_bytes());
    assert_eq!(&EDITION_LABEL[..], mpl_token_metadata::pda::EDITION.as_bytes());
    assert_eq!(&CREATOR_LABEL[..], mpl_candy_machine::constants::PREFIX.as_bytes());
    assert_eq!(&COLLECTION_LABEL[..], mpl_candy_machine::CollectionPDA::PREFIX.as_bytes());
}

#[test]
fn collection_address_uses_label_and_sale() {
    let sale = sample(1);
    let program = Address::new(CANDY_MACHINE_PROGRAM);
    let (expected, bump) =
        Pubkey::find_program_address(&[b"collection", &sale.bytes], &key(&program));
    let (found, found_bump) = find_collection_pda(&sale, &program).unwrap();
    assert_eq!(found.bytes, expected.to_bytes());
    assert_eq!(found_bump, bump);
    assert_ne!(found.bytes, sale.bytes);
}

#[test]
fn creator_address_uses_label_and_sale() {
    let sale = sample(2);
    let program = Address::new(CANDY_MACHINE_PROGRAM);
    let (expected, bump) =
        Pubkey::find_program_address(&[b"candy_machine", &sale.bytes], &key(&program));
    assert_eq!(
        find_candy_machine_creator_pda(&sale, &program),
        Some((Address::new(expected.to_bytes()), bump))
    );
}

#[test]
fn metadata_addresses_match_the_metadata_program() {
    let mint = sample(3);
    let program = Address::new(TOKEN_METADATA_PROGRAM);
    let (metadata, _) = mpl_token_metadata::pda::find_metadata_account(&key(&mint));
    let (edition, _) = mpl_token_metadata::pda::find_master_edition_account(&key(&mint));
    assert_eq!(find_metadata_pda(&mint, &program), Some(Address::new(metadata.to_bytes())));
    assert_eq!(find_master_edition_pda(&mint, &program), Some(Address::new(edition.to_bytes())));
    assert_ne!(metadata, edition);
}

#[test]
fn collection_authority_matches_the_metadata_program() {
    let mint = sample(4);
    let authority = sample(5);
    let program = Address::new(TOKEN_METADATA_PROGRAM);
    let (expected, bump) =
        mpl_token_metadata::pda::find_collection_authority_account(&key(&mint), &key(&authority));
    assert_eq!(
        find_collection_authority_account(&mint, &authority, &program),
        Some((Address::new(expected.to_bytes()), bump))
    );
}

#[test]
fn associated_token_address_matches_the_token_library() {
    let wallet = sample(6);
    let mint = sample(7);
    let expected =
        spl_associated_token_account::get_associated_token_address(&key(&wallet), &key(&mint));
    assert_eq!(
        get_associated_token_address(&wallet, &mint),
        Some(Address::new(expected.to_bytes()))
    );
    assert_ne!(
        get_associated_token_address(&wallet, &mint),
        get_associated_token_address(&mint, &wallet)
    );
}

#[test]
fn derivation_repeats_itself() {
    let sale = sample(8);
    let program = Address::new(CANDY_MACHINE_PROGRAM);
    let first = find_collection_pda(&sale, &program);
    for _ in 0..5 {
        assert_eq!(find_collection_pda(&sale, &program), first);
    }
    let other_program = Address::new(TOKEN_METADATA_PROGRAM);
    assert_ne!(find_collection_pda(&sale, &other_program), first);
}
