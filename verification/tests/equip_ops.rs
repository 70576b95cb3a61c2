use rpg_inventory::{
    add_to_inventory, equip, unequip, EquipError, Equipment, EquipmentLocation, EquipmentSlot,
    Handle, Item, Player, Requirements, Stat, UnequipError,
};

fn plain_equipment(name: &str, slot: EquipmentSlot) -> Equipment {
    Equipment::new(String::from(name), slot, Requirements::new())
}

#[test]
fn equip_into_empty_slot_succeeds() {
    let mut p = Player::new(String::from("Ada"));
    let e = plain_equipment("helm", EquipmentSlot::Head);
    assert!(equip(&mut p, EquipmentSlot::Head, e).is_ok());
    match p.equipped.current(EquipmentSlot::Head) {
        Some(worn) => {
            assert_eq!(worn.name, "helm");
            assert_eq!(worn.location, Some(EquipmentLocation::Equipped(EquipmentSlot::Head)));
        },
        None => panic!("the head slot should be occupied"),
    }
    assert_eq!(p.inventory.get_open_slots(), 40);
}

#[test]
fn equip_then_unequip_round_trip() {
    let mut p = Player::new(String::from("Ada"));
    let e = plain_equipment("helm", EquipmentSlot::Head);
    assert!(equip(&mut p, EquipmentSlot::Head, e).is_ok());
    let idx = unequip(&mut p, EquipmentSlot::Head).expect("unequip should succeed");
    assert_eq!(idx, 1);
    assert!(p.equipped.current(EquipmentSlot::Head).is_none());
    match p.inventory.slot(1) {
        Some(Handle::Equipment(stowed)) => {
            assert_eq!(stowed.name, "helm");
            assert_eq!(stowed.location, Some(EquipmentLocation::Stowed(1)));
        },
        _ => panic!("the helm should sit stowed in slot 1"),
    }
    // Every other slot is as it was before the equip: still empty.
    for i in 2..=40u8 {
        assert_eq!(*p.inventory.slot(i), None);
    }
}

#[test]
fn equip_requirements_failure_changes_nothing() {
    let mut p = Player::new(String::from("Ada"));
    let mut reqs = Requirements::new();
    reqs.set(Stat::Strength, 9);
    let e = Equipment::new(String::from("greatsword"), EquipmentSlot::Body, reqs);
    let inventory_before = p.inventory.clone();
    let equipped_before = p.equipped.clone();
    match equip(&mut p, EquipmentSlot::Body, e) {
        Err((back, EquipError::Requirements(re))) => {
            assert_eq!(re.requirements, reqs);
            assert_eq!(back.name, "greatsword");
            assert_eq!(back.location, None);
        },
        _ => panic!("expected a requirements failure"),
    }
    assert_eq!(p.inventory, inventory_before);
    assert_eq!(p.equipped, equipped_before);
}

#[test]
fn equip_wrong_slot_rejected() {
    let mut p = Player::new(String::from("Ada"));
    let e = plain_equipment("boots", EquipmentSlot::Legs);
    let inventory_before = p.inventory.clone();
    let equipped_before = p.equipped.clone();
    match equip(&mut p, EquipmentSlot::Head, e) {
        Err((back, EquipError::WrongSlot(slot))) => {
            assert_eq!(slot, EquipmentSlot::Head);
            assert_eq!(back.name, "boots");
            assert_eq!(back.location, None);
        },
        _ => panic!("expected a wrong-slot failure"),
    }
    assert_eq!(p.inventory, inventory_before);
    assert_eq!(p.equipped, equipped_before);
}

#[test]
fn equip_displaces_previous_occupant_into_lowest_open_slot() {
    let mut p = Player::new(String::from("Ada"));
    let first = plain_equipment("old_helm", EquipmentSlot::Head);
    let second = plain_equipment("new_helm", EquipmentSlot::Head);
    assert!(equip(&mut p, EquipmentSlot::Head, first).is_ok());
    assert!(equip(&mut p, EquipmentSlot::Head, second).is_ok());
    match p.equipped.current(EquipmentSlot::Head) {
        Some(worn) => assert_eq!(worn.name, "new_helm"),
        None => panic!("the head slot should be occupied"),
    }
    match p.inventory.slot(1) {
        Some(Handle::Equipment(stowed)) => {
            assert_eq!(stowed.name, "old_helm");
            assert_eq!(stowed.location, Some(EquipmentLocation::Stowed(1)));
        },
        _ => panic!("the displaced helm should sit stowed in slot 1"),
    }
    assert_eq!(p.inventory.get_open_slots(), 39);
}

#[test]
fn equip_rolls_back_when_inventory_is_full() {
    let mut p = Player::new(String::from("Ada"));
    let first = plain_equipment("old_helm", EquipmentSlot::Head);
    assert!(equip(&mut p, EquipmentSlot::Head, first).is_ok());
    for i in 0..40 {
        add_to_inventory(&mut p, Handle::Item(Item::new(format!("item{}", i))))
            .expect("table not yet full");
    }
    assert_eq!(p.inventory.get_open_slots(), 0);
    let inventory_before = p.inventory.clone();
    let second = plain_equipment("new_helm", EquipmentSlot::Head);
    match equip(&mut p, EquipmentSlot::Head, second) {
        Err((back, EquipError::InventoryFull)) => {
            assert_eq!(back.name, "new_helm");
        },
        _ => panic!("expected an inventory-full failure"),
    }
    match p.equipped.current(EquipmentSlot::Head) {
        Some(worn) => assert_eq!(worn.name, "old_helm"),
        None => panic!("the head slot should still be occupied"),
    }
    assert_eq!(p.inventory, inventory_before);
}

#[test]
fn unequip_empty_slot_fails() {
    let mut p = Player::new(String::from("Ada"));
    assert_eq!(unequip(&mut p, EquipmentSlot::Body), Err(UnequipError::SlotEmpty));
}

#[test]
fn unequip_rolls_back_when_inventory_is_full() {
    let mut p = Player::new(String::from("Ada"));
    let e = plain_equipment("helm", EquipmentSlot::Head);
    assert!(equip(&mut p, EquipmentSlot::Head, e).is_ok());
    for i in 0..40 {
        add_to_inventory(&mut p, Handle::Item(Item::new(format!("item{}", i))))
            .expect("table not yet full");
    }
    let inventory_before = p.inventory.clone();
    assert_eq!(unequip(&mut p, EquipmentSlot::Head), Err(UnequipError::InventoryFull));
    match p.equipped.current(EquipmentSlot::Head) {
        Some(worn) => {
            assert_eq!(worn.name, "helm");
            assert_eq!(worn.location, Some(EquipmentLocation::Equipped(EquipmentSlot::Head)));
        },
        None => panic!("the helm should still be equipped"),
    }
    assert_eq!(p.inventory, inventory_before);
}

#[test]
fn stow_is_a_plain_pass_through() {
    let mut p = Player::new(String::from("Ada"));
    let idx = add_to_inventory(&mut p, Handle::Item(Item::new(String::from("rope"))))
        .expect("the fresh table has room");
    assert_eq!(idx, 1);
    assert_eq!(p.inventory.get_open_slots(), 39);
    match p.inventory.slot(1) {
        Some(Handle::Item(it)) => assert_eq!(it.inventory_slot, Some(1)),
        _ => panic!("the rope should sit in slot 1"),
    }
}
