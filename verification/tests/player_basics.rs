use rpg_inventory::{
    Equipment, EquipmentRegistry, EquipmentSlot, Inventory, Item, Requirements, RequirementsError,
    Stat, StatLedger,
};

#[test]
fn new_player_fields() {
    let p = rpg_inventory::Player::new(String::from("John"));
    assert_eq!(p.name, "John");
    assert_eq!(p.inventory, Inventory::new());
    assert_eq!(p.equipped, EquipmentRegistry::new());
    assert_eq!(p.stats, StatLedger::new(5, 5, 5, 5));
}

#[test]
fn new_item_is_unlocated() {
    let it = Item::new(String::from("torch"));
    assert_eq!(it.name, "torch");
    assert_eq!(it.inventory_slot, None);
}

#[test]
fn new_equipment_is_unlocated() {
    let mut reqs = Requirements::new();
    reqs.set(Stat::Dexterity, 3);
    let e = Equipment::new(String::from("boots"), EquipmentSlot::Legs, reqs);
    assert_eq!(e.name, "boots");
    assert_eq!(e.slot, EquipmentSlot::Legs);
    assert_eq!(e.requirements, reqs);
    assert_eq!(e.location, None);
}

#[test]
fn stat_ledger_levels() {
    let ledger = StatLedger::new(1, 2, 3, 4);
    assert_eq!(ledger.level(Stat::Strength), 1);
    assert_eq!(ledger.level(Stat::Dexterity), 2);
    assert_eq!(ledger.level(Stat::Stamina), 3);
    assert_eq!(ledger.level(Stat::Energy), 4);
}

#[test]
fn requirements_error_carries_mapping() {
    let mut reqs = Requirements::new();
    reqs.set(Stat::Energy, 7);
    let err = RequirementsError::new(reqs);
    assert_eq!(err.requirements, reqs);
}

#[test]
fn requirements_set_leaves_other_stats_alone() {
    let mut reqs = Requirements::new();
    reqs.set(Stat::Strength, 2);
    assert_eq!(reqs.strength, Some(2));
    assert_eq!(reqs.dexterity, None);
    assert_eq!(reqs.stamina, None);
    assert_eq!(reqs.energy, None);
}

#[test]
fn check_requirements_boundary() {
    let ledger = StatLedger::new(5, 5, 5, 5);
    let mut exact = Requirements::new();
    exact.set(Stat::Strength, 5);
    let fits = Equipment::new(String::from("mail"), EquipmentSlot::Body, exact);
    assert!(fits.check_requirements(&ledger).is_ok());

    let mut above = Requirements::new();
    above.set(Stat::Strength, 6);
    let heavy = Equipment::new(String::from("plate"), EquipmentSlot::Body, above);
    let r = heavy.check_requirements(&ledger);
    match r {
        Err(rpg_inventory::EquipError::Requirements(re)) => {
            assert_eq!(re.requirements, above);
        },
        _ => panic!("expected a requirements failure"),
    }
}
