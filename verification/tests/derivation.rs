use anchor_lang::prelude::Pubkey;
use escrow::address::Address;
use escrow::derivation::{
    derive_offer_address, derive_vault_address, offer_seeds_of, signer_seeds_of, vault_seeds_of,
};
use escrow::instructions::create_offer::{create_offer, CreateOffer};

fn key(tag: u8) -> Address {
    Address::new([tag; 32])
}

#[test]
fn offer_seeds_are_tag_creator_and_little_endian_id() {
    let seeds = offer_seeds_of(&key(7), 0x0102_0304_0506_0708);
    assert_eq!(seeds.len(), 3);
    assert_eq!(seeds[0], b"offer".to_vec());
    assert_eq!(seeds[1], vec![7u8; 32]);
    assert_eq!(seeds[2], vec![8u8, 7, 6, 5, 4, 3, 2, 1]);
}

#[test]
fn vault_seeds_are_tag_and_offer_address() {
    let seeds = vault_seeds_of(&key(9));
    assert_eq!(seeds, vec![b"vault".to_vec(), vec![9u8; 32]]);
}

#[test]
fn signer_seeds_end_with_the_bump() {
    let ctx = CreateOffer {
        creator: key(1),
        offer: key(2),
        offer_mint: key(3),
        request_mint: key(4),
        vault: key(5),
        bump: 251,
    };
    let offer = create_offer(&ctx, 10, 20, 100, 258, 0).unwrap().offer;
    let seeds = signer_seeds_of(&offer);
    assert_eq!(
        seeds,
        vec![b"offer".to_vec(), vec![1u8; 32], vec![2u8, 1, 0, 0, 0, 0, 0, 0], vec![251u8]]
    );
}

#[test]
fn offer_address_is_the_program_derived_address_of_its_seeds() {
    let program = key(42);
    let creator = key(1);
    let (address, bump) = derive_offer_address(&program, &creator, 1).expect("a bump seed fits");
    let (expected, expected_bump) = Pubkey::find_program_address(
        &[b"offer", &[1u8; 32], &1u64.to_le_bytes()],
        &Pubkey::new_from_array([42u8; 32]),
    );
    assert_eq!(address.to_bytes(), expected.to_bytes());
    assert_eq!(bump, expected_bump);
    assert_ne!(address, program);
    assert_ne!(address, creator);
}

#[test]
fn offer_address_with_its_bump_is_a_valid_program_address() {
    let program = key(42);
    let (address, bump) = derive_offer_address(&program, &key(1), 77).unwrap();
    let direct = Pubkey::create_program_address(
        &[b"offer", &[1u8; 32], &77u64.to_le_bytes(), &[bump]],
        &Pubkey::new_from_array([42u8; 32]),
    )
    .unwrap();
    assert_eq!(address.to_bytes(), direct.to_bytes());
}

#[test]
fn vault_address_is_the_program_derived_address_of_its_seeds() {
    let program = key(42);
    let (offer_key, _) = derive_offer_address(&program, &key(1), 1).unwrap();
    let (vault, bump) = derive_vault_address(&program, &offer_key).unwrap();
    let (expected, expected_bump) = Pubkey::find_program_address(
        &[b"vault", &offer_key.to_bytes()],
        &Pubkey::new_from_array([42u8; 32]),
    );
    assert_eq!(vault.to_bytes(), expected.to_bytes());
    assert_eq!(bump, expected_bump);
    assert_ne!(vault, offer_key);
}

#[test]
fn same_creator_and_id_derive_the_same_address() {
    let program = key(42);
    let first = derive_offer_address(&program, &key(1), 5);
    let second = derive_offer_address(&program, &key(1), 5);
    assert_eq!(first, second);
    assert!(first.is_some());
}

#[test]
fn another_id_or_creator_or_program_derives_another_address() {
    let base = derive_offer_address(&key(42), &key(1), 5).unwrap().0;
    assert_ne!(derive_offer_address(&key(42), &key(1), 6).unwrap().0, base);
    assert_ne!(derive_offer_address(&key(42), &key(2), 5).unwrap().0, base);
    assert_ne!(derive_offer_address(&key(43), &key(1), 5).unwrap().0, base);
}
