use meep::processor::mint_nft::{ACCOUNT_LEN, MINT_LEN};
use meep::pubkey::{
    Pubkey, METADATA_PROGRAM_ID, RENT_SYSVAR_ID, SYSTEM_PROGRAM_ID, TOKEN_PROGRAM_ID,
};
use meep::utils::{Pda, EDITION, PREFIX, SETTINGS_SEED};
use solana_program::program_pack::Pack;

fn key(fill: u8) -> Pubkey {
    Pubkey::new_from_array([fill; 32])
}

fn outside(key: &Pubkey) -> solana_program::pubkey::Pubkey {
    solana_program::pubkey::Pubkey::new_from_array(key.bytes)
}

#[test]
fn program_ids_are_those_of_the_collaborators() {
    assert_eq!(SYSTEM_PROGRAM_ID, solana_program::system_program::ID.to_bytes());
    assert_eq!(RENT_SYSVAR_ID, solana_program::sysvar::rent::ID.to_bytes());
    assert_eq!(TOKEN_PROGRAM_ID, spl_token::ID.to_bytes());
    assert_eq!(METADATA_PROGRAM_ID, metaplex_token_metadata::ID.to_bytes());
}

#[test]
fn tags_are_those_of_the_registry() {
    assert_eq!(&SETTINGS_SEED[..], "settings_meep".as_bytes());
    assert_eq!(&PREFIX[..], metaplex_token_metadata::state::PREFIX.as_bytes());
    assert_eq!(&EDITION[..], metaplex_token_metadata::state::EDITION.as_bytes());
}

#[test]
fn record_sizes_are_those_of_the_token_ledger() {
    assert_eq!(MINT_LEN, spl_token::state::Mint::LEN as u64);
    assert_eq!(ACCOUNT_LEN, spl_token::state::Account::LEN as u64);
    assert_eq!(MINT_LEN, 82);
    assert_eq!(ACCOUNT_LEN, 165);
}

#[test]
fn settings_address_is_the_ledgers_derivation() {
    let program = key(7);
    let authority = key(9);
    let (address, bump) = Pda::settings_pubkey_with_bump(&program, &authority).unwrap();
    let expected = solana_program::pubkey::Pubkey::find_program_address(
        &["settings_meep".as_bytes(), &authority.bytes],
        &outside(&program),
    );
    assert_eq!(address.bytes, expected.0.to_bytes());
    assert_eq!(bump, expected.1);
    assert_ne!(address, authority);
    assert_ne!(address, program);
    assert!(!outside(&address).is_on_curve());
}

#[test]
fn settings_address_is_rebuilt_from_its_seeds_and_bump() {
    let program = key(21);
    let authority = key(22);
    let (address, bump) = Pda::settings_pubkey_with_bump(&program, &authority).unwrap();
    let seeds = Pda::signer_seeds(&authority, bump);
    assert_eq!(seeds, vec![b"settings_meep".to_vec(), authority.bytes.to_vec(), vec![bump]]);
    let parts: Vec<&[u8]> = seeds.iter().map(|s| s.as_slice()).collect();
    let rebuilt =
        solana_program::pubkey::Pubkey::create_program_address(&parts, &outside(&program)).unwrap();
    assert_eq!(rebuilt.to_bytes(), address.bytes);
}

#[test]
fn derivation_is_deterministic() {
    let program = key(1);
    let authority = key(2);
    let first = Pda::settings_pubkey_with_bump(&program, &authority);
    let second = Pda::settings_pubkey_with_bump(
        &Pubkey::new_from_array([1; 32]),
        &Pubkey::new_from_array([2; 32]),
    );
    assert!(first.is_some());
    assert_eq!(first, second);
    assert_eq!(Pda::metadata_pubkey(&key(3)), Pda::metadata_pubkey(&key(3)));
    assert_eq!(Pda::master_edition_pubkey(&key(3)), Pda::master_edition_pubkey(&key(3)));
}

#[test]
fn derivation_tells_owners_programs_and_families_apart() {
    let settings = Pda::settings_pubkey_with_bump(&key(1), &key(2)).unwrap().0;
    assert_ne!(settings, Pda::settings_pubkey_with_bump(&key(1), &key(3)).unwrap().0);
    assert_ne!(settings, Pda::settings_pubkey_with_bump(&key(4), &key(2)).unwrap().0);
    let metadata = Pda::metadata_pubkey(&key(2)).unwrap();
    let edition = Pda::master_edition_pubkey(&key(2)).unwrap();
    assert_ne!(metadata, edition);
    assert_ne!(metadata, settings);
    assert_ne!(metadata, Pda::metadata_pubkey(&key(3)).unwrap());
}

#[test]
fn metadata_address_is_the_registrys() {
    let mint = key(33);
    let registry = metaplex_token_metadata::ID;
    let expected = solana_program::pubkey::Pubkey::find_program_address(
        &["metadata".as_bytes(), registry.as_ref(), &mint.bytes],
        &registry,
    )
    .0;
    assert_eq!(Pda::metadata_pubkey(&mint).unwrap().bytes, expected.to_bytes());
}

#[test]
fn edition_address_is_the_registrys() {
    let mint = key(34);
    let registry = metaplex_token_metadata::ID;
    let expected = solana_program::pubkey::Pubkey::find_program_address(
        &["metadata".as_bytes(), registry.as_ref(), &mint.bytes, "edition".as_bytes()],
        &registry,
    )
    .0;
    assert_eq!(Pda::master_edition_pubkey(&mint).unwrap().bytes, expected.to_bytes());
}

#[test]
fn identities_compare_by_their_bytes() {
    let mut bytes = [5u8; 32];
    let a = Pubkey::new_from_array(bytes);
    assert_eq!(a, key(5));
    assert_eq!(a.to_vec(), vec![5u8; 32]);
    bytes[31] = 6;
    assert_ne!(Pubkey::new_from_array(bytes), a);
    bytes[31] = 5;
    bytes[0] = 4;
    assert_ne!(Pubkey::new_from_array(bytes), a);
}

#[test]
fn settings_family_is_derived_from_tag_owner_and_program() {
    let program = key(7);
    let authority = key(9);
    assert_eq!(
        Pda::derive(&SETTINGS_SEED, &authority, &program),
        Pda::settings_pubkey_with_bump(&program, &authority)
    );
    let (address, bump) = Pda::derive(b"vault", &authority, &program).unwrap();
    let expected = solana_program::pubkey::Pubkey::find_program_address(
        &[b"vault", &authority.bytes],
        &outside(&program),
    );
    assert_eq!((address.bytes, bump), (expected.0.to_bytes(), expected.1));
    assert_ne!(Some((address, bump)), Pda::derive(&SETTINGS_SEED, &authority, &program));
    assert_eq!(Pda::derive(b"vault", &authority, &program), Some((address, bump)));
}

#[test]
fn a_tag_longer_than_a_seed_derives_nothing() {
    assert_eq!(Pda::derive(&[1u8; 33], &key(1), &key(2)), None);
    assert!(Pda::derive(&[1u8; 32], &key(1), &key(2)).is_some());
    assert!(Pda::derive(&[], &key(1), &key(2)).is_some());
}
