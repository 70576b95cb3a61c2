use rpg_inventory::{Handle, Inventory, InventoryError, Item, SlotEmpty};

fn item(name: &str) -> Handle {
    Handle::Item(Item::new(String::from(name)))
}

#[test]
fn fresh_table_has_forty_open_slots() {
    let inv = Inventory::new();
    assert_eq!(inv.get_open_slots(), 40);
    assert_eq!(inv.find_open_slot(), Some(1));
}

#[test]
fn forty_stows_fill_the_table_and_one_more_fails() {
    let mut inv = Inventory::new();
    for i in 0..40u8 {
        assert_eq!(inv.get_open_slots(), 40 - i);
        let idx = inv.add(item(&format!("item{}", i))).expect("table not yet full");
        assert_eq!(idx, i + 1);
    }
    assert_eq!(inv.get_open_slots(), 0);
    assert_eq!(inv.find_open_slot(), None);

    let snapshot = inv.clone();
    match inv.add(item("straw")) {
        Err((Handle::Item(it), InventoryError::InventoryFull)) => {
            assert_eq!(it.name, "straw");
            assert_eq!(it.inventory_slot, None);
        },
        _ => panic!("expected InventoryFull with the handle given back"),
    }
    assert_eq!(inv, snapshot);
}

#[test]
fn insert_selects_lowest_open_index() {
    let mut inv = Inventory::new();
    assert_eq!(inv.add(item("a")).unwrap(), 1);
    assert_eq!(inv.add(item("b")).unwrap(), 2);
    assert_eq!(inv.add(item("c")).unwrap(), 3);
    // Freeing a low slot makes it the next one chosen: lowest free index wins.
    inv.remove(2).unwrap();
    assert_eq!(inv.add(item("d")).unwrap(), 2);
}

#[test]
fn insert_records_the_index_in_the_handle() {
    let mut inv = Inventory::new();
    inv.add(item("a")).unwrap();
    match inv.slot(1) {
        Some(Handle::Item(it)) => {
            assert_eq!(it.name, "a");
            assert_eq!(it.inventory_slot, Some(1));
        },
        _ => panic!("slot 1 should hold the stowed item"),
    }
    assert_eq!(*inv.slot(2), None);
}

#[test]
fn remove_returns_the_handle_with_location_cleared() {
    let mut inv = Inventory::new();
    inv.add(item("a")).unwrap();
    match inv.remove(1) {
        Ok(Handle::Item(it)) => {
            assert_eq!(it.name, "a");
            assert_eq!(it.inventory_slot, None);
        },
        _ => panic!("expected the stowed item back"),
    }
    assert_eq!(*inv.slot(1), None);
    assert_eq!(inv.get_open_slots(), 40);
}

#[test]
fn remove_from_empty_slot_fails_and_changes_nothing() {
    let mut inv = Inventory::new();
    inv.add(item("a")).unwrap();
    let snapshot = inv.clone();
    assert_eq!(inv.remove(7), Err(SlotEmpty));
    assert_eq!(inv, snapshot);
}
