use kitties::{Error, Event, KittyId, Pallet};

#[test]
fn it_works_for_create() {
    let mut pallet = Pallet::new();
    let kitty_id = 0;
    let account_id = 1;

    assert_eq!(pallet.next_kitty_id(), kitty_id);
    assert!(pallet.create(account_id).is_ok());
    assert_eq!(pallet.next_kitty_id(), kitty_id + 1);

    assert_eq!(pallet.kitties(kitty_id).is_some(), true);
    assert_eq!(pallet.kitty_owner(kitty_id), Some(account_id));

    // created without parents
    assert_eq!(pallet.kitty_parents(kitty_id), None);

    // the id space is exhausted
    pallet.set_next_kitty_id(KittyId::MAX);
    let events_before = pallet.events().len();
    assert_eq!(pallet.create(account_id), Err(Error::Overflow));
    assert_eq!(pallet.next_kitty_id(), KittyId::MAX);
    assert_eq!(pallet.events().len(), events_before);
}

#[test]
fn it_works_breed() {
    let mut pallet = Pallet::new();
    let kitty_id = 0;
    let account_id = 1;

    assert_eq!(pallet.breed(account_id, kitty_id, kitty_id), Err(Error::SameParent));
    assert_eq!(pallet.next_kitty_id(), 0);

    // parents that do not exist
    assert_eq!(pallet.breed(account_id, kitty_id, kitty_id + 1), Err(Error::NotFound));
    assert_eq!(pallet.next_kitty_id(), 0);

    assert!(pallet.create(account_id).is_ok());
    assert!(pallet.create(account_id).is_ok());

    assert_eq!(pallet.next_kitty_id(), kitty_id + 2);

    assert!(pallet.breed(account_id, kitty_id, kitty_id + 1).is_ok());

    let breed_kitty_id = 2;
    assert_eq!(pallet.next_kitty_id(), breed_kitty_id + 1);
    assert_eq!(pallet.kitties(breed_kitty_id).is_some(), true);
    assert_eq!(pallet.kitty_owner(breed_kitty_id), Some(account_id));

    assert_eq!(pallet.kitty_parents(breed_kitty_id), Some((kitty_id, kitty_id + 1)));
}

#[test]
fn it_works_for_transfer() {
    let mut pallet = Pallet::new();
    let kitty_id = 0;
    let account_id = 1;
    let recipient = 2;

    assert!(pallet.create(account_id).is_ok());
    assert_eq!(pallet.kitty_owner(kitty_id), Some(account_id));

    assert_eq!(pallet.transfer(recipient, account_id, kitty_id), Err(Error::NotOwner));
    assert_eq!(pallet.kitty_owner(kitty_id), Some(account_id));

    assert!(pallet.transfer(account_id, recipient, kitty_id).is_ok());
    assert_eq!(pallet.kitty_owner(kitty_id), Some(recipient));

    assert!(pallet.transfer(recipient, account_id, kitty_id).is_ok());
    assert_eq!(pallet.kitty_owner(kitty_id), Some(account_id));
}

#[test]
fn it_works_for_create_event() {
    let mut pallet = Pallet::new();
    let kitty_id = 0;
    let account_id = 1;

    assert!(pallet.create(account_id).is_ok());
    let kitty = pallet.kitties(kitty_id).unwrap();

    assert_eq!(
        pallet.events().last(),
        Some(&Event::KittyCreated { who: account_id, kitty_id, kitty })
    );
}

#[test]
fn it_works_for_breed_event() {
    let mut pallet = Pallet::new();
    let kitty_id = 0;
    let account_id = 1;

    assert!(pallet.create(account_id).is_ok());
    assert!(pallet.create(account_id).is_ok());

    assert_eq!(pallet.next_kitty_id(), kitty_id + 2);

    assert!(pallet.breed(account_id, kitty_id, kitty_id + 1).is_ok());

    let newborn_kitty_id = pallet.next_kitty_id() - 1;
    let newborn_kitty = pallet.kitties(newborn_kitty_id).unwrap();

    let expected =
        Event::KittyBreed { who: account_id, kitty_id: newborn_kitty_id, kitty: newborn_kitty };
    assert_eq!(pallet.events().last(), Some(&expected));
    assert!(pallet.events().contains(&expected));
}

#[test]
fn it_works_for_transfer_event() {
    let mut pallet = Pallet::new();
    let kitty_id = 0;
    let account_id = 1;
    let recipient = 2;

    assert!(pallet.create(account_id).is_ok());
    assert_eq!(pallet.kitty_owner(kitty_id), Some(account_id));

    assert!(pallet.transfer(account_id, recipient, kitty_id).is_ok());
    assert_eq!(
        pallet.events().last(),
        Some(&Event::KittyTransferred { who: account_id, recipient, kitty_id })
    );

    assert!(pallet.transfer(recipient, account_id, kitty_id).is_ok());
    assert_eq!(
        pallet.events().last(),
        Some(&Event::KittyTransferred { who: recipient, recipient: account_id, kitty_id })
    );
}
