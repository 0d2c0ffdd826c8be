use kitties::breeding::breed_dna;
use kitties::randomness::random_value;
use kitties::{Error, Event, KittyId, Pallet};

fn expected_random(seed: &[u8; 32], who: u64, index: u32) -> [u8; 16] {
    let mut payload = seed.to_vec();
    payload.extend_from_slice(&who.to_le_bytes());
    payload.extend_from_slice(&index.to_le_bytes());
    sp_io::hashing::blake2_128(&payload)
}

#[test]
fn random_value_hashes_seed_caller_and_index() {
    let seed = [7u8; 32];
    let r = random_value(&seed, 5, 3);
    assert_eq!(r, expected_random(&seed, 5, 3));
    assert_ne!(r[..], seed[..16]);
    assert_ne!(r, random_value(&seed, 5, 4));
    assert_ne!(r, random_value(&seed, 6, 3));
}

#[test]
fn create_takes_dna_from_the_random_context() {
    let mut pallet = Pallet::new();
    let seed = [9u8; 32];
    pallet.set_random_seed(seed);
    pallet.set_extrinsic_index(4);
    assert_eq!(pallet.create(11), Ok(0));
    let kitty = pallet.kitties(0).unwrap();
    assert_eq!(kitty.dna, expected_random(&seed, 11, 4));
    assert_eq!(kitty.name, [0u8; 8]);
}

#[test]
fn create_increments_counter_by_one() {
    let mut pallet = Pallet::new();
    pallet.set_next_kitty_id(41);
    assert_eq!(pallet.create(3), Ok(41));
    assert_eq!(pallet.next_kitty_id(), 42);
    assert!(pallet.kitties(41).is_some());
    assert_eq!(pallet.kitty_owner(41), Some(3));
    assert_eq!(pallet.kitty_parents(41), None);
}

#[test]
fn create_at_max_id_overflows_and_keeps_counter() {
    let mut pallet = Pallet::new();
    pallet.set_next_kitty_id(KittyId::MAX);
    assert_eq!(pallet.create(1), Err(Error::Overflow));
    assert_eq!(pallet.create(1), Err(Error::Overflow));
    assert_eq!(pallet.next_kitty_id(), KittyId::MAX);
    assert_eq!(pallet.kitties(KittyId::MAX), None);
    assert!(pallet.events().is_empty());
}

#[test]
fn create_just_below_max_succeeds_once() {
    let mut pallet = Pallet::new();
    pallet.set_next_kitty_id(KittyId::MAX - 1);
    assert_eq!(pallet.create(1), Ok(KittyId::MAX - 1));
    assert_eq!(pallet.next_kitty_id(), KittyId::MAX);
    assert_eq!(pallet.create(1), Err(Error::Overflow));
}

#[test]
fn breed_same_parent_fails_whether_or_not_it_exists() {
    let mut pallet = Pallet::new();
    assert_eq!(pallet.breed(1, 7, 7), Err(Error::SameParent));
    assert_eq!(pallet.create(1), Ok(0));
    assert_eq!(pallet.breed(1, 0, 0), Err(Error::SameParent));
    assert_eq!(pallet.next_kitty_id(), 1);
}

#[test]
fn breed_with_missing_parent_allocates_nothing() {
    let mut pallet = Pallet::new();
    assert_eq!(pallet.create(1), Ok(0));
    assert_eq!(pallet.breed(1, 0, 5), Err(Error::NotFound));
    assert_eq!(pallet.breed(1, 5, 0), Err(Error::NotFound));
    assert_eq!(pallet.next_kitty_id(), 1);
    assert_eq!(pallet.events().len(), 1);
}

#[test]
fn breed_at_max_id_overflows() {
    let mut pallet = Pallet::new();
    assert_eq!(pallet.create(1), Ok(0));
    assert_eq!(pallet.create(1), Ok(1));
    pallet.set_next_kitty_id(KittyId::MAX);
    assert_eq!(pallet.breed(1, 0, 1), Err(Error::Overflow));
    assert_eq!(pallet.next_kitty_id(), KittyId::MAX);
    assert_eq!(pallet.kitty_parents(KittyId::MAX), None);
}

#[test]
fn breed_mixes_parents_by_the_selector() {
    let mut pallet = Pallet::new();
    pallet.set_extrinsic_index(1);
    assert_eq!(pallet.create(1), Ok(0));
    pallet.set_extrinsic_index(2);
    assert_eq!(pallet.create(1), Ok(1));
    pallet.set_extrinsic_index(3);
    assert_eq!(pallet.breed(8, 0, 1), Ok(2));

    let a = pallet.kitties(0).unwrap().dna;
    let b = pallet.kitties(1).unwrap().dna;
    let selector = expected_random(&[0u8; 32], 8, 3);
    let child = pallet.kitties(2).unwrap();
    for i in 0..16 {
        assert_eq!(child.dna[i], (a[i] & selector[i]) | (b[i] & !selector[i]));
    }
    assert_eq!(child.name, [0u8; 8]);
    assert_eq!(pallet.kitty_parents(2), Some((0, 1)));
    assert_eq!(pallet.kitty_owner(2), Some(8));
}

#[test]
fn breed_dna_takes_bits_by_selector() {
    let a = [0xF0u8; 16];
    let b = [0x0Fu8; 16];
    assert_eq!(breed_dna(&a, &b, &[0xFF; 16]), a);
    assert_eq!(breed_dna(&a, &b, &[0x00; 16]), b);
    let mut selector = [0xFFu8; 16];
    selector[3] = 0x00;
    let child = breed_dna(&a, &b, &selector);
    for i in 0..16 {
        assert!(child[i] == a[i] || child[i] == b[i]);
    }
    assert_eq!(child[3], 0x0F);
    // parents that differ in bits taken from both sides give a third value
    assert_eq!(breed_dna(&a, &b, &[0x0F; 16]), [0x00; 16]);
    assert_eq!(breed_dna(&[0b1100; 16], &[0b1010; 16], &[0b0110; 16]), [0b1100 & 0b0110 | 0b1010 & !0b0110u8; 16]);
}

#[test]
fn transfer_by_non_owner_fails() {
    let mut pallet = Pallet::new();
    assert_eq!(pallet.transfer(1, 2, 0), Err(Error::NotOwner));
    assert_eq!(pallet.create(1), Ok(0));
    assert_eq!(pallet.transfer(2, 3, 0), Err(Error::NotOwner));
    assert_eq!(pallet.kitty_owner(0), Some(1));
    assert_eq!(pallet.events().len(), 1);
}

#[test]
fn transfer_moves_ownership_only() {
    let mut pallet = Pallet::new();
    assert_eq!(pallet.create(1), Ok(0));
    assert_eq!(pallet.create(1), Ok(1));
    assert_eq!(pallet.breed(1, 0, 1), Ok(2));
    let kitty = pallet.kitties(2);
    assert_eq!(pallet.transfer(1, 4, 2), Ok(()));
    assert_eq!(pallet.kitty_owner(2), Some(4));
    assert_eq!(pallet.kitties(2), kitty);
    assert_eq!(pallet.kitty_parents(2), Some((0, 1)));
}

#[test]
fn transfer_to_self_succeeds() {
    let mut pallet = Pallet::new();
    assert_eq!(pallet.create(1), Ok(0));
    assert_eq!(pallet.transfer(1, 1, 0), Ok(()));
    assert_eq!(pallet.kitty_owner(0), Some(1));
}

#[test]
fn create_breed_transfer_scenario() {
    let alice = 1;
    let bob = 2;
    let mut pallet = Pallet::new();
    assert_eq!(pallet.create(alice), Ok(0));
    assert_eq!(pallet.kitty_owner(0), Some(alice));
    assert_eq!(pallet.create(alice), Ok(1));
    assert_eq!(pallet.kitty_owner(1), Some(alice));
    assert_eq!(pallet.breed(alice, 0, 1), Ok(2));
    assert_eq!(pallet.kitty_owner(2), Some(alice));
    assert_eq!(pallet.kitty_parents(2), Some((0, 1)));
    assert_eq!(pallet.transfer(alice, bob, 2), Ok(()));
    assert_eq!(pallet.kitty_owner(2), Some(bob));
    assert_eq!(pallet.transfer(bob, alice, 0), Err(Error::NotOwner));
    assert_eq!(pallet.events().len(), 4);
    assert!(matches!(pallet.events()[3], Event::KittyTransferred { who: 1, recipient: 2, kitty_id: 2 }));
}
