//! A character's carried possessions: a fixed-capacity inventory of items and
//! a set of equipment slots gated by stat requirements.
//!
//! The core is the slot-allocation and equip/unequip state machine: items
//! occupy bounded storage, equipping validates stat requirements and swaps
//! displaced gear back into inventory, and every failure leaves both stores
//! exactly as they were.

pub mod errors;
pub mod inventory;
pub mod items;
pub mod player;
pub mod registry;
pub mod stats;

pub use errors::{EquipError, InventoryError, RequirementsError, SlotEmpty, UnequipError};
pub use inventory::Inventory;
pub use items::{Equipment, EquipmentLocation, EquipmentSlot, Handle, Item};
pub use player::{add_to_inventory, equip, unequip, Player};
pub use registry::EquipmentRegistry;
pub use stats::{Requirements, Stat, StatLedger};
