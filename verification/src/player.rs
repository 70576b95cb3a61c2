//! The character facade: one stat ledger, one slot table, one equipment
//! registry, mutated only through `equip`, `unequip` and `add_to_inventory`.
//!
//! Each entry point validates first and commits only when the whole
//! operation can succeed, so a failure leaves both stores exactly as they
//! were and no handle is ever lost or duplicated.

use vstd::prelude::*;
use crate::errors::{EquipError, InventoryError, RequirementsError, UnequipError};
use crate::inventory::{
    add_spec, empty_table, first_open_from, lemma_first_open_bounds, lemma_open_count_zero,
    open_count_from, table_wf, Inventory, CAPACITY,
};
use crate::items::{stowed_at, Equipment, EquipmentSlot, Handle};
use crate::registry::{equipped_in, reg_with, EquipmentRegistry};
use crate::stats::{reqs_met, StatLedger};

verus! {

/// The starting level every stat of a new character is created with.
pub const BASELINE_LEVEL: u16 = 5;

/// A character: a name, a stat ledger, a slot table and an equipment
/// registry.
#[derive(Debug, Clone, PartialEq, Eq)]
pub struct Player {
    pub name: String,
    pub inventory: Inventory,
    pub equipped: EquipmentRegistry,
    pub stats: StatLedger,
}

/// The mathematical state of a character's stores: the stat ledger, the
/// registry entries, and the slot table contents as a sequence.
#[verifier::ext_equal]
pub struct PlayerView {
    pub stats: StatLedger,
    pub equipped: EquipmentRegistry,
    pub inv: Seq<Option<Handle>>,
}

impl PlayerView {
    /// Well-formedness of the two stores.
    pub open spec fn wf(self) -> bool {
        &&& table_wf(self.inv)
        &&& self.equipped.wf()
    }
}

impl View for Player {
    type V = PlayerView;

    open spec fn view(&self) -> PlayerView {
        PlayerView { stats: self.stats, equipped: self.equipped, inv: self.inventory.slots@ }
    }
}

impl Player {
    /// Well-formedness of the two stores.
    pub open spec fn wf(&self) -> bool {
        &&& self.inventory.wf()
        &&& self.equipped.wf()
    }

    /// A new character: forty empty inventory slots, every equipment slot
    /// empty, and every stat at the baseline starting level.
    pub fn new(name: String) -> (r: Self)
        ensures
            r.wf(),
            r.name == name,
            r.stats == (StatLedger {
                strength: BASELINE_LEVEL,
                dexterity: BASELINE_LEVEL,
                stamina: BASELINE_LEVEL,
                energy: BASELINE_LEVEL,
            }),
            r@.inv == empty_table(),
            open_count_from(r@.inv, 0) == CAPACITY as int,
            forall|slot: EquipmentSlot| r.equipped.entry(slot) is None,
    {
        Player {
            name,
            inventory: Inventory::new(),
            equipped: EquipmentRegistry::new(),
            stats: StatLedger::new(
                BASELINE_LEVEL,
                BASELINE_LEVEL,
                BASELINE_LEVEL,
                BASELINE_LEVEL,
            ),
        }
    }
}

/// What an equip operation does to a character's stores, and what it
/// returns. In order: a requirement shortfall is rejected, then a slot-kind
/// mismatch; an occupant of the target slot is displaced into the lowest
/// open inventory slot, and if the inventory cannot take it the whole
/// operation fails with nothing changed.
pub open spec fn equip_spec(s: PlayerView, slot: EquipmentSlot, equipment: Equipment) -> (
    PlayerView,
    Result<(), (Equipment, EquipError)>,
) {
    if !reqs_met(equipment.requirements, s.stats) {
        (
            s,
            Err((
                equipment,
                EquipError::Requirements(RequirementsError { requirements: equipment.requirements }),
            )),
        )
    } else if equipment.slot != slot {
        (s, Err((equipment, EquipError::WrongSlot(slot))))
    } else {
        match s.equipped.entry(slot) {
            None => (
                PlayerView {
                    equipped: reg_with(s.equipped, slot, Some(equipped_in(equipment, slot))),
                    ..s
                },
                Ok(()),
            ),
            Some(displaced) => match first_open_from(s.inv, 0) {
                None => (s, Err((equipment, EquipError::InventoryFull))),
                Some(j) => (
                    PlayerView {
                        equipped: reg_with(s.equipped, slot, Some(equipped_in(equipment, slot))),
                        inv: s.inv.update(
                            j,
                            Some(stowed_at(Handle::Equipment(displaced), (j + 1) as u8)),
                        ),
                        ..s
                    },
                    Ok(()),
                ),
            },
        }
    }
}

/// What an unequip operation does to a character's stores, and what it
/// returns: the occupant of `slot` moves into the lowest open inventory
/// slot, whose index is returned; an empty slot or a full inventory is
/// rejected with nothing changed.
pub open spec fn unequip_spec(s: PlayerView, slot: EquipmentSlot) -> (
    PlayerView,
    Result<u8, UnequipError>,
) {
    match s.equipped.entry(slot) {
        None => (s, Err(UnequipError::SlotEmpty)),
        Some(e) => match first_open_from(s.inv, 0) {
            None => (s, Err(UnequipError::InventoryFull)),
            Some(j) => (
                PlayerView {
                    equipped: reg_with(s.equipped, slot, None),
                    inv: s.inv.update(j, Some(stowed_at(Handle::Equipment(e), (j + 1) as u8))),
                    ..s
                },
                Ok((j + 1) as u8),
            ),
        },
    }
}

/// Equips `equipment` into the slot of kind `slot`: validates the stat
/// requirements against the character's ledger, then the slot kind, then
/// performs the registry swap, routing a displaced occupant into the lowest
/// open inventory slot. On any failure the equipment is handed back and
/// both stores are left exactly as they were.
pub fn equip(player: &mut Player, slot: EquipmentSlot, equipment: Equipment) -> (r: Result<
    (),
    (Equipment, EquipError),
>)
    requires
        old(player).wf(),
    ensures
        final(player).wf(),
        final(player)@ == equip_spec(old(player)@, slot, equipment).0,
        r == equip_spec(old(player)@, slot, equipment).1,
        final(player).name == old(player).name,
        final(player).stats == old(player).stats,
        // A requirement shortfall is reported with the full requirement
        // mapping, and nothing changes.
        !reqs_met(equipment.requirements, old(player).stats) ==> r == Err::<(), _>((
            equipment,
            EquipError::Requirements(RequirementsError { requirements: equipment.requirements }),
        )) && *final(player) == *old(player),
        // A slot-kind mismatch is rejected, and nothing changes.
        reqs_met(equipment.requirements, old(player).stats) && equipment.slot != slot ==> r
            == Err::<(), _>((equipment, EquipError::WrongSlot(slot))) && *final(player) == *old(
            player,
        ),
        // A displaced occupant that no open slot can take fails the whole
        // operation, and nothing changes.
        reqs_met(equipment.requirements, old(player).stats) && equipment.slot == slot && old(
            player,
        ).equipped.entry(slot) is Some && first_open_from(old(player)@.inv, 0) is None ==> r
            == Err::<(), _>((equipment, EquipError::InventoryFull)) && *final(player) == *old(
            player,
        ),
        // Equipping into an occupied slot stows the displaced occupant in
        // the lowest open inventory slot.
        reqs_met(equipment.requirements, old(player).stats) && equipment.slot == slot && old(
            player,
        ).equipped.entry(slot) is Some && first_open_from(old(player)@.inv, 0) is Some ==> ({
            let j = first_open_from(old(player)@.inv, 0)->Some_0;
            r is Ok && final(player).equipped == reg_with(
                old(player).equipped,
                slot,
                Some(equipped_in(equipment, slot)),
            ) && final(player)@.inv == old(player)@.inv.update(
                j,
                Some(
                    stowed_at(
                        Handle::Equipment(old(player).equipped.entry(slot)->Some_0),
                        (j + 1) as u8,
                    ),
                ),
            )
        }),
        // Equipping into an empty slot changes nothing but that entry.
        reqs_met(equipment.requirements, old(player).stats) && equipment.slot == slot && old(
            player,
        ).equipped.entry(slot) is None ==> r is Ok && final(player).equipped == reg_with(
            old(player).equipped,
            slot,
            Some(equipped_in(equipment, slot)),
        ) && final(player)@.inv == old(player)@.inv,
{
    match equipment.check_requirements(&player.stats) {
        Err(e) => {
            return Err((equipment, e));
        },
        Ok(()) => {},
    }
    if equipment.slot == slot && player.equipped.current(slot).is_some() {
        if player.inventory.find_open_slot().is_none() {
            return Err((equipment, EquipError::InventoryFull));
        }
    }
    match player.equipped.equip(slot, equipment) {
        Err((eq, err)) => Err((eq, err)),
        Ok(None) => {
            proof {
                assert(final(player)@ =~= equip_spec(old(player)@, slot, equipment).0);
            }
            Ok(())
        },
        Ok(Some(displaced)) => {
            proof {
                lemma_open_count_zero(player.inventory.slots@, 0);
            }
            match player.inventory.add(Handle::Equipment(displaced)) {
                Ok(_idx) => {
                    proof {
                        assert(final(player)@ =~= equip_spec(old(player)@, slot, equipment).0);
                    }
                    Ok(())
                },
                Err(_) => unreached(),
            }
        },
    }
}

/// Unequips the occupant of the slot of kind `slot` and stows it in the
/// lowest open inventory slot, returning that index. An empty slot fails
/// with `SlotEmpty`; a full inventory fails with `InventoryFull`; either
/// way both stores are left exactly as they were.
pub fn unequip(player: &mut Player, slot: EquipmentSlot) -> (r: Result<u8, UnequipError>)
    requires
        old(player).wf(),
    ensures
        final(player).wf(),
        final(player)@ == unequip_spec(old(player)@, slot).0,
        r == unequip_spec(old(player)@, slot).1,
        final(player).name == old(player).name,
        final(player).stats == old(player).stats,
        // An empty slot is rejected, and nothing changes.
        old(player).equipped.entry(slot) is None ==> r == Err::<u8, _>(UnequipError::SlotEmpty)
            && *final(player) == *old(player),
        // A full inventory fails the operation, and nothing changes: the
        // equipment stays equipped rather than vanish.
        old(player).equipped.entry(slot) is Some && first_open_from(old(player)@.inv, 0) is None
            ==> r == Err::<u8, _>(UnequipError::InventoryFull) && *final(player) == *old(player),
{
    if player.equipped.current(slot).is_none() {
        return Err(UnequipError::SlotEmpty);
    }
    if player.inventory.find_open_slot().is_none() {
        return Err(UnequipError::InventoryFull);
    }
    match player.equipped.unequip(slot) {
        Ok(e) => {
            proof {
                lemma_open_count_zero(player.inventory.slots@, 0);
            }
            match player.inventory.add(Handle::Equipment(e)) {
                Ok(idx) => {
                    proof {
                        assert(final(player)@ =~= unequip_spec(old(player)@, slot).0);
                    }
                    Ok(idx)
                },
                Err(_) => unreached(),
            }
        },
        Err(_) => unreached(),
    }
}

/// Stows a handle in the lowest open inventory slot: a direct pass-through
/// to the slot table's insertion, surfacing `InventoryFull` unchanged.
pub fn add_to_inventory(player: &mut Player, item: Handle) -> (r: Result<
    u8,
    (Handle, InventoryError),
>)
    requires
        old(player).wf(),
    ensures
        final(player).wf(),
        final(player).name == old(player).name,
        final(player).stats == old(player).stats,
        final(player).equipped == old(player).equipped,
        r is Err <==> open_count_from(old(player)@.inv, 0) == 0,
        match r {
            Ok(idx) => {
                &&& 1 <= idx <= CAPACITY
                &&& old(player)@.inv[idx - 1] is None
                &&& forall|k: int| 0 <= k < idx - 1 ==> old(player)@.inv[k] is Some
                &&& final(player)@.inv == old(player)@.inv.update(
                    idx - 1,
                    Some(stowed_at(item, idx)),
                )
                &&& open_count_from(final(player)@.inv, 0) == open_count_from(
                    old(player)@.inv,
                    0,
                ) - 1
                &&& add_spec(old(player)@.inv, item) == Ok::<_, InventoryError>((
                    final(player)@.inv,
                    idx,
                ))
            },
            Err((h, e)) => {
                &&& h == item
                &&& e == InventoryError::InventoryFull
                &&& *final(player) == *old(player)
            },
        },
{
    player.inventory.add(item)
}

/// Law: equip-then-unequip round trip. Equipping `equipment` into an empty
/// slot it fits and meets the requirements of, then unequipping that slot,
/// succeeds twice, leaves the registry and the stat ledger as they were,
/// and leaves the inventory identical to before except that `equipment`
/// itself now sits stowed in what was the lowest open slot.
pub proof fn lemma_equip_unequip_round_trip(
    s: PlayerView,
    slot: EquipmentSlot,
    equipment: Equipment,
)
    requires
        s.wf(),
        reqs_met(equipment.requirements, s.stats),
        equipment.slot == slot,
        s.equipped.entry(slot) is None,
        open_count_from(s.inv, 0) > 0,
    ensures
        ({
            let (s1, r1) = equip_spec(s, slot, equipment);
            let (s2, r2) = unequip_spec(s1, slot);
            let j = first_open_from(s.inv, 0)->Some_0;
            &&& r1 == Ok::<(), (Equipment, EquipError)>(())
            &&& r2 == Ok::<u8, UnequipError>((j + 1) as u8)
            &&& s2.equipped == s.equipped
            &&& s2.stats == s.stats
            &&& s2.inv == s.inv.update(j, Some(stowed_at(Handle::Equipment(equipment), (j + 1) as u8)))
            &&& forall|k: int| 0 <= k < s.inv.len() && k != j ==> s2.inv[k] == s.inv[k]
        }),
{
    lemma_open_count_zero(s.inv, 0);
    lemma_first_open_bounds(s.inv, 0);
    let (s1, r1) = equip_spec(s, slot, equipment);
    let (s2, r2) = unequip_spec(s1, slot);
    let j = first_open_from(s.inv, 0)->Some_0;
    assert(s2.equipped =~= s.equipped);
    assert(stowed_at(Handle::Equipment(equipped_in(equipment, slot)), (j + 1) as u8) == stowed_at(
        Handle::Equipment(equipment),
        (j + 1) as u8,
    ));
}

} // verus!
