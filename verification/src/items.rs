//! Items, equipment, and the handles the stores keep track of.

use vstd::prelude::*;
use crate::errors::{EquipError, RequirementsError};
use crate::stats::{reqs_met, stat_ok, Requirements, StatLedger};

verus! {

/// The closed set of equipment slot kinds.
#[derive(Debug, Clone, Copy, PartialEq, Eq, Structural)]
pub enum EquipmentSlot {
    Head,
    Body,
    Legs,
}

/// Where a piece of equipment currently lives: stowed in the inventory slot
/// with the given index, or equipped in a slot of the given kind. Equipment
/// whose location is `None` is unlocated (newly created).
#[derive(Debug, Clone, Copy, PartialEq, Eq)]
pub enum EquipmentLocation {
    Stowed(u8),
    Equipped(EquipmentSlot),
}

/// A plain item: it can be stowed, never equipped. `inventory_slot` is the
/// index it occupies, or `None` while it is unlocated.
#[derive(Debug, Clone, PartialEq, Eq)]
pub struct Item {
    pub name: String,
    pub inventory_slot: Option<u8>,
}

impl Item {
    /// A newly created, unlocated item.
    pub fn new(name: String) -> (r: Self)
        ensures
            r == (Item { name, inventory_slot: None }),
    {
        Item { name, inventory_slot: None }
    }
}

/// A piece of equipment: it demands a slot kind and stat minimums, and lives
/// in at most one place at a time.
#[derive(Debug, Clone, PartialEq, Eq)]
pub struct Equipment {
    pub name: String,
    /// The one slot kind this equipment can be equipped in.
    pub slot: EquipmentSlot,
    /// Minimum stat levels demanded of the wearer.
    pub requirements: Requirements,
    pub location: Option<EquipmentLocation>,
}

impl Equipment {
    /// A newly created, unlocated piece of equipment.
    pub fn new(name: String, slot: EquipmentSlot, requirements: Requirements) -> (r: Self)
        ensures
            r == (Equipment { name, slot, requirements, location: None }),
    {
        Equipment { name, slot, requirements, location: None }
    }

    /// Checks this equipment's requirement mapping against a stat ledger,
    /// stat by stat in the declared order of `Stat`. Succeeds exactly when
    /// every demanded minimum is met; the failure carries the complete
    /// requirement mapping.
    pub fn check_requirements(&self, ledger: &StatLedger) -> (r: Result<(), EquipError>)
        ensures
            r is Ok <==> reqs_met(self.requirements, *ledger),
            r is Err ==> r == Err::<(), EquipError>(
                EquipError::Requirements(RequirementsError { requirements: self.requirements }),
            ),
    {
        if !min_met(&self.requirements.strength, ledger.strength)
            || !min_met(&self.requirements.dexterity, ledger.dexterity)
            || !min_met(&self.requirements.stamina, ledger.stamina)
            || !min_met(&self.requirements.energy, ledger.energy) {
            Err(EquipError::Requirements(RequirementsError::new(self.requirements)))
        } else {
            Ok(())
        }
    }
}

/// Whether `level` satisfies an optional minimum.
fn min_met(minimum: &Option<u16>, level: u16) -> (r: bool)
    ensures
        r == stat_ok(*minimum, level),
{
    match minimum {
        None => true,
        Some(m) => level >= *m,
    }
}

/// What an inventory slot can hold: a plain item or a piece of equipment.
#[derive(Debug, Clone, PartialEq, Eq)]
pub enum Handle {
    Item(Item),
    Equipment(Equipment),
}

/// The inventory index recorded in a handle's own location field, if it
/// records one.
pub open spec fn recorded_slot(h: Handle) -> Option<u8> {
    match h {
        Handle::Item(it) => it.inventory_slot,
        Handle::Equipment(e) => match e.location {
            Some(EquipmentLocation::Stowed(i)) => Some(i),
            _ => None,
        },
    }
}

/// `h` with its location set to inventory index `idx`.
pub open spec fn stowed_at(h: Handle, idx: u8) -> Handle {
    match h {
        Handle::Item(it) => Handle::Item(Item { inventory_slot: Some(idx), ..it }),
        Handle::Equipment(e) => Handle::Equipment(
            Equipment { location: Some(EquipmentLocation::Stowed(idx)), ..e },
        ),
    }
}

/// `h` with its location cleared.
pub open spec fn unlocated(h: Handle) -> Handle {
    match h {
        Handle::Item(it) => Handle::Item(Item { inventory_slot: None, ..it }),
        Handle::Equipment(e) => Handle::Equipment(Equipment { location: None, ..e }),
    }
}

} // verus!
