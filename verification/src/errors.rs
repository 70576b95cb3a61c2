//! Typed failures of the inventory and equip/unequip operations.
//!
//! Every failure is returned as a value; no failing operation leaves a store
//! partially mutated.

use vstd::prelude::*;
use crate::items::EquipmentSlot;
use crate::stats::Requirements;

verus! {

/// Failure of an insertion into the slot table: no index is open.
#[derive(Debug, Clone, Copy, PartialEq, Eq)]
pub enum InventoryError {
    InventoryFull,
}

/// Failure of a removal or a registry unequip: the addressed slot is already empty.
#[derive(Debug, Clone, Copy, PartialEq, Eq)]
pub struct SlotEmpty;

/// Stat minimums not met; carries the complete requirement mapping of the
/// rejected equipment so a caller can report everything it demands.
#[derive(Debug, Clone, Copy, PartialEq, Eq)]
pub struct RequirementsError {
    pub requirements: Requirements,
}

impl RequirementsError {
    pub fn new(requirements: Requirements) -> (r: Self)
        ensures
            r == (RequirementsError { requirements }),
    {
        RequirementsError { requirements }
    }
}

/// Failure of an equip operation.
#[derive(Debug, Clone, Copy, PartialEq, Eq)]
pub enum EquipError {
    /// The equipment's required slot kind differs from the target slot.
    WrongSlot(EquipmentSlot),
    /// The character's stat levels fall short of the equipment's minimums.
    Requirements(RequirementsError),
    /// A displaced piece of equipment could not be stowed: the inventory is full.
    InventoryFull,
}

/// Failure of an unequip operation.
#[derive(Debug, Clone, Copy, PartialEq, Eq)]
pub enum UnequipError {
    /// The equipment slot holds nothing.
    SlotEmpty,
    /// The unequipped piece could not be stowed: the inventory is full.
    InventoryFull,
}

} // verus!
