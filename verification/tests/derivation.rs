use anchor_escrow::address::is_address;
use anchor_escrow::derivation::{escrow_address, proves_authority, vault_address};
use anchor_escrow::Address;
use anchor_lang::prelude::Pubkey;

const SEED: u64 = 0x0102_0304_0506_0708;

fn program() -> Address {
    Address::new([200; 32])
}

fn maker() -> Address {
    let mut bytes = [0u8; 32];
    for (i, byte) in bytes.iter_mut().enumerate() {
        *byte = i as u8;
    }
    Address::new(bytes)
}

fn key(address: &Address) -> Pubkey {
    Pubkey::new_from_array(address.bytes)
}

#[test]
fn escrow_address_is_derived_from_tag_maker_and_seed() {
    let seed_bytes = [8u8, 7, 6, 5, 4, 3, 2, 1];
    let (expected, bump) = Pubkey::find_program_address(
        &[b"escrow", &maker().bytes, &seed_bytes],
        &key(&program()),
    );
    assert_eq!(
        escrow_address(&program(), &maker(), SEED),
        Some((Address::new(expected.to_bytes()), bump))
    );
}

#[test]
fn escrow_address_is_not_one_of_its_arguments() {
    let (address, _) = escrow_address(&program(), &maker(), SEED).unwrap();
    assert_ne!(address, program());
    assert_ne!(address, maker());
}

#[test]
fn escrow_address_is_the_same_every_time() {
    assert_eq!(
        escrow_address(&program(), &maker(), SEED),
        escrow_address(&program(), &maker(), SEED)
    );
}

#[test]
fn escrow_address_depends_on_each_input() {
    let base = escrow_address(&program(), &maker(), SEED).unwrap().0;
    assert_ne!(escrow_address(&program(), &maker(), SEED + 1).unwrap().0, base);
    assert_ne!(escrow_address(&program(), &Address::new([1; 32]), SEED).unwrap().0, base);
    assert_ne!(escrow_address(&Address::new([201; 32]), &maker(), SEED).unwrap().0, base);
}

#[test]
fn vault_address_is_derived_from_tag_and_record_address() {
    let (escrow, _) = escrow_address(&program(), &maker(), SEED).unwrap();
    let (expected, _) =
        Pubkey::find_program_address(&[b"vault", &escrow.bytes], &key(&program()));
    assert_eq!(vault_address(&program(), &escrow), Some(Address::new(expected.to_bytes())));
    assert_ne!(vault_address(&program(), &escrow), Some(escrow));
}

#[test]
fn vault_address_differs_from_record_to_record() {
    let first = escrow_address(&program(), &maker(), 1).unwrap().0;
    let second = escrow_address(&program(), &maker(), 2).unwrap().0;
    assert_ne!(vault_address(&program(), &first), vault_address(&program(), &second));
}

#[test]
fn the_bump_of_the_derivation_proves_authority() {
    let (escrow, bump) = escrow_address(&program(), &maker(), SEED).unwrap();
    assert!(proves_authority(&program(), &maker(), SEED, bump, &escrow));
    let created = Pubkey::create_program_address(
        &[b"escrow", &maker().bytes, &SEED.to_le_bytes(), &[bump]],
        &key(&program()),
    );
    assert_eq!(created, Ok(key(&escrow)));
}

#[test]
fn another_bump_proves_nothing() {
    let (escrow, bump) = escrow_address(&program(), &maker(), SEED).unwrap();
    for other in 0..=255u8 {
        if other != bump {
            assert!(!proves_authority(&program(), &maker(), SEED, other, &escrow));
        }
    }
}

#[test]
fn the_bump_proves_nothing_of_other_seeds_makers_or_addresses() {
    let (escrow, bump) = escrow_address(&program(), &maker(), SEED).unwrap();
    assert!(!proves_authority(&program(), &maker(), SEED + 1, bump, &escrow));
    assert!(!proves_authority(&program(), &Address::new([1; 32]), SEED, bump, &escrow));
    assert!(!proves_authority(&Address::new([201; 32]), &maker(), SEED, bump, &escrow));
    assert!(!proves_authority(&program(), &maker(), SEED, bump, &maker()));
}

#[test]
fn addresses_compare_byte_for_byte() {
    let one = Address::new([7; 32]);
    let mut bytes = [7u8; 32];
    assert!(one.same(&Address::new(bytes)));
    bytes[31] = 8;
    assert!(!one.same(&Address::new(bytes)));
    bytes[31] = 7;
    bytes[0] = 6;
    assert!(!one.same(&Address::new(bytes)));
    assert_eq!(maker().to_vec(), (0u8..32).collect::<Vec<u8>>());
    assert!(is_address(&Some(one), &one));
    assert!(!is_address(&Some(one), &maker()));
    assert!(!is_address(&None, &one));
}
