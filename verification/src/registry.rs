//! The equipment registry: one entry per equipment slot kind, each holding at
//! most one piece of equipment whose recorded location matches its slot.

use vstd::prelude::*;
use crate::errors::{EquipError, SlotEmpty};
use crate::items::{Equipment, EquipmentLocation, EquipmentSlot};

verus! {

/// Mapping from each equipment slot kind to its occupant, if any.
#[derive(Debug, Clone, PartialEq, Eq)]
pub struct EquipmentRegistry {
    pub head: Option<Equipment>,
    pub body: Option<Equipment>,
    pub legs: Option<Equipment>,
}

/// `reg` with its entry for `slot` replaced by `entry`.
pub open spec fn reg_with(
    reg: EquipmentRegistry,
    slot: EquipmentSlot,
    entry: Option<Equipment>,
) -> EquipmentRegistry {
    match slot {
        EquipmentSlot::Head => EquipmentRegistry { head: entry, ..reg },
        EquipmentSlot::Body => EquipmentRegistry { body: entry, ..reg },
        EquipmentSlot::Legs => EquipmentRegistry { legs: entry, ..reg },
    }
}

/// `e` with its location set to "equipped in `slot`".
pub open spec fn equipped_in(e: Equipment, slot: EquipmentSlot) -> Equipment {
    Equipment { location: Some(EquipmentLocation::Equipped(slot)), ..e }
}

/// `e` with its location cleared.
pub open spec fn dislodged(e: Equipment) -> Equipment {
    Equipment { location: None, ..e }
}

/// Whether an occupant of the entry for `slot` belongs there: it demands
/// `slot` and records `slot` as its own location.
pub open spec fn entry_ok(entry: Option<Equipment>, slot: EquipmentSlot) -> bool {
    match entry {
        None => true,
        Some(e) => e.slot == slot && e.location == Some(EquipmentLocation::Equipped(slot)),
    }
}

impl EquipmentRegistry {
    /// The entry for `slot`.
    pub open spec fn entry(&self, slot: EquipmentSlot) -> Option<Equipment> {
        match slot {
            EquipmentSlot::Head => self.head,
            EquipmentSlot::Body => self.body,
            EquipmentSlot::Legs => self.legs,
        }
    }

    /// Well-formedness: every occupant demands the slot kind it occupies and
    /// records that slot kind as its own location.
    pub open spec fn wf(&self) -> bool {
        &&& entry_ok(self.head, EquipmentSlot::Head)
        &&& entry_ok(self.body, EquipmentSlot::Body)
        &&& entry_ok(self.legs, EquipmentSlot::Legs)
    }

    /// A registry with every slot kind empty.
    pub fn new() -> (r: Self)
        ensures
            r.wf(),
            forall|slot: EquipmentSlot| r.entry(slot) is None,
    {
        EquipmentRegistry { head: None, body: None, legs: None }
    }

    /// Read-only lookup of the occupant of `slot`.
    pub fn current(&self, slot: EquipmentSlot) -> (r: &Option<Equipment>)
        ensures
            *r == self.entry(slot),
    {
        match slot {
            EquipmentSlot::Head => &self.head,
            EquipmentSlot::Body => &self.body,
            EquipmentSlot::Legs => &self.legs,
        }
    }

    /// The mechanical swap of an equip operation. If `equipment` demands a
    /// slot kind other than `slot`, fails with `WrongSlot`, hands the
    /// equipment back untouched, and changes nothing. Otherwise records
    /// `equipment` (with its location set to `slot`) as the occupant and
    /// returns the displaced previous occupant, if any, so the caller can
    /// route it back into inventory. Validation of stat requirements is the
    /// caller's business, done before this call.
    pub fn equip(&mut self, slot: EquipmentSlot, equipment: Equipment) -> (r: Result<
        Option<Equipment>,
        (Equipment, EquipError),
    >)
        ensures
            match r {
                Ok(displaced) => {
                    &&& equipment.slot == slot
                    &&& displaced == old(self).entry(slot)
                    &&& *final(self) == reg_with(
                        *old(self),
                        slot,
                        Some(equipped_in(equipment, slot)),
                    )
                },
                Err((e, err)) => {
                    &&& equipment.slot != slot
                    &&& e == equipment
                    &&& err == EquipError::WrongSlot(slot)
                    &&& *final(self) == *old(self)
                },
            },
            old(self).wf() ==> final(self).wf(),
    {
        if equipment.slot != slot {
            return Err((equipment, EquipError::WrongSlot(slot)));
        }
        let mut incoming = equipment;
        incoming.location = Some(EquipmentLocation::Equipped(slot));
        let displaced = match slot {
            EquipmentSlot::Head => self.head.take(),
            EquipmentSlot::Body => self.body.take(),
            EquipmentSlot::Legs => self.legs.take(),
        };
        match slot {
            EquipmentSlot::Head => self.head = Some(incoming),
            EquipmentSlot::Body => self.body = Some(incoming),
            EquipmentSlot::Legs => self.legs = Some(incoming),
        }
        Ok(displaced)
    }

    /// Clears the entry for `slot` and returns its occupant with the
    /// occupant's location cleared; fails with `SlotEmpty`, changing nothing,
    /// if the entry is already empty.
    pub fn unequip(&mut self, slot: EquipmentSlot) -> (r: Result<Equipment, SlotEmpty>)
        ensures
            r is Err <==> old(self).entry(slot) is None,
            match r {
                Ok(e) => {
                    &&& e == dislodged(old(self).entry(slot)->Some_0)
                    &&& *final(self) == reg_with(*old(self), slot, None::<Equipment>)
                },
                Err(err) => {
                    &&& err == SlotEmpty
                    &&& *final(self) == *old(self)
                },
            },
            old(self).wf() ==> final(self).wf(),
    {
        let taken = match slot {
            EquipmentSlot::Head => self.head.take(),
            EquipmentSlot::Body => self.body.take(),
            EquipmentSlot::Legs => self.legs.take(),
        };
        match taken {
            None => Err(SlotEmpty),
            Some(mut e) => {
                e.location = None;
                Ok(e)
            },
        }
    }
}

} // verus!
