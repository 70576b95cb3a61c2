//! Stats, the stat ledger, and equipment requirement mappings.

use vstd::prelude::*;

verus! {

/// The closed set of character stats.
#[derive(Debug, Clone, Copy, PartialEq, Eq, Structural)]
pub enum Stat {
    Strength,
    Dexterity,
    Stamina,
    Energy,
}

/// A character's stat levels: one non-negative level per `Stat`, never partial.
#[derive(Debug, Clone, Copy, PartialEq, Eq, Structural)]
pub struct StatLedger {
    pub strength: u16,
    pub dexterity: u16,
    pub stamina: u16,
    pub energy: u16,
}

impl StatLedger {
    /// The level recorded for `stat`.
    pub open spec fn spec_level(&self, stat: Stat) -> u16 {
        match stat {
            Stat::Strength => self.strength,
            Stat::Dexterity => self.dexterity,
            Stat::Stamina => self.stamina,
            Stat::Energy => self.energy,
        }
    }

    pub fn new(strength: u16, dexterity: u16, stamina: u16, energy: u16) -> (r: Self)
        ensures
            r == (StatLedger { strength, dexterity, stamina, energy }),
    {
        StatLedger { strength, dexterity, stamina, energy }
    }

    #[verifier::when_used_as_spec(spec_level)]
    pub fn level(&self, stat: Stat) -> (r: u16)
        ensures
            r == self.spec_level(stat),
    {
        match stat {
            Stat::Strength => self.strength,
            Stat::Dexterity => self.dexterity,
            Stat::Stamina => self.stamina,
            Stat::Energy => self.energy,
        }
    }
}

/// A requirement mapping `Stat -> minimum level`; a stat left at `None`
/// imposes no minimum.
#[derive(Debug, Clone, Copy, PartialEq, Eq)]
pub struct Requirements {
    pub strength: Option<u16>,
    pub dexterity: Option<u16>,
    pub stamina: Option<u16>,
    pub energy: Option<u16>,
}

impl Requirements {
    /// The minimum level demanded of `stat`, if any.
    pub open spec fn spec_min(self, stat: Stat) -> Option<u16> {
        match stat {
            Stat::Strength => self.strength,
            Stat::Dexterity => self.dexterity,
            Stat::Stamina => self.stamina,
            Stat::Energy => self.energy,
        }
    }

    /// An empty mapping: no stat is constrained.
    pub fn new() -> (r: Self)
        ensures
            forall|stat: Stat| r.spec_min(stat) is None,
    {
        Requirements { strength: None, dexterity: None, stamina: None, energy: None }
    }

    /// Demand at least `minimum` of `stat`, leaving the other stats as they were.
    pub fn set(&mut self, stat: Stat, minimum: u16)
        ensures
            final(self).spec_min(stat) == Some(minimum),
            forall|other: Stat| other != stat ==> final(self).spec_min(other) == old(self).spec_min(other),
    {
        match stat {
            Stat::Strength => self.strength = Some(minimum),
            Stat::Dexterity => self.dexterity = Some(minimum),
            Stat::Stamina => self.stamina = Some(minimum),
            Stat::Energy => self.energy = Some(minimum),
        }
    }
}

/// Whether a level satisfies an optional minimum.
pub open spec fn stat_ok(minimum: Option<u16>, level: u16) -> bool {
    match minimum {
        None => true,
        Some(m) => level >= m,
    }
}

/// Whether `ledger` satisfies every minimum that `reqs` imposes.
pub open spec fn reqs_met(reqs: Requirements, ledger: StatLedger) -> bool {
    &&& stat_ok(reqs.strength, ledger.strength)
    &&& stat_ok(reqs.dexterity, ledger.dexterity)
    &&& stat_ok(reqs.stamina, ledger.stamina)
    &&& stat_ok(reqs.energy, ledger.energy)
}

} // verus!
