//! The slot table: fixed-capacity indexed storage for item and equipment
//! handles, with lowest-open-index insertion.
//!
//! Indices run from 1 to 40. Each index holds at most one handle, and a
//! stored handle's own location field always records the index it occupies.

use vstd::prelude::*;
use vstd::assert_seqs_equal;
use crate::errors::{InventoryError, SlotEmpty};
use crate::items::{recorded_slot, stowed_at, unlocated, Handle};

verus! {

/// Number of inventory slots in every table.
pub const CAPACITY: usize = 40;

/// Whether a slot's occupant (if any) records exactly the 1-based index of
/// the slot it sits in.
pub open spec fn located_at(slot: Option<Handle>, i: int) -> bool {
    match slot {
        None => true,
        Some(h) => recorded_slot(h) == Some((i + 1) as u8),
    }
}

/// Well-formedness of a table's contents: exactly forty slots, and every
/// occupant records the index it occupies.
pub open spec fn table_wf(s: Seq<Option<Handle>>) -> bool {
    &&& s.len() == CAPACITY as int
    &&& forall|i: int| 0 <= i < CAPACITY as int ==> located_at(#[trigger] s[i], i)
}

/// The contents of a freshly created table: forty empty slots.
pub open spec fn empty_table() -> Seq<Option<Handle>> {
    Seq::new(CAPACITY as nat, |i: int| None)
}

/// Number of empty slots at positions `i..` of `s`.
pub open spec fn open_count_from(s: Seq<Option<Handle>>, i: int) -> int
    decreases s.len() - i,
{
    if i >= s.len() {
        0
    } else {
        (if s[i] is None { 1int } else { 0int }) + open_count_from(s, i + 1)
    }
}

/// The lowest position `>= i` of `s` that is empty, if any.
pub open spec fn first_open_from(s: Seq<Option<Handle>>, i: int) -> Option<int>
    decreases s.len() - i,
{
    if i >= s.len() {
        None
    } else if s[i] is None {
        Some(i)
    } else {
        first_open_from(s, i + 1)
    }
}

/// What inserting `h` into a table with contents `s` yields: the new contents
/// and the chosen 1-based index, or failure when no slot is open.
pub open spec fn add_spec(s: Seq<Option<Handle>>, h: Handle) -> Result<
    (Seq<Option<Handle>>, u8),
    InventoryError,
> {
    match first_open_from(s, 0) {
        None => Err(InventoryError::InventoryFull),
        Some(j) => Ok((s.update(j, Some(stowed_at(h, (j + 1) as u8))), (j + 1) as u8)),
    }
}

/// Skipping over a stretch of occupied slots does not change the first open
/// position.
pub proof fn lemma_first_open_skip(s: Seq<Option<Handle>>, a: int, b: int)
    requires
        0 <= a <= b <= s.len(),
        forall|k: int| a <= k < b ==> s[k] is Some,
    ensures
        first_open_from(s, a) == first_open_from(s, b),
    decreases b - a,
{
    if a < b {
        lemma_first_open_skip(s, a + 1, b);
    }
}

/// The first open position, when there is one, is empty and everything below
/// it (from `i` on) is occupied; when there is none, everything from `i` on
/// is occupied.
pub proof fn lemma_first_open_bounds(s: Seq<Option<Handle>>, i: int)
    requires
        0 <= i,
    ensures
        match first_open_from(s, i) {
            Some(j) => i <= j < s.len() && s[j] is None && forall|k: int| i <= k < j ==> s[k] is Some,
            None => forall|k: int| i <= k < s.len() ==> s[k] is Some,
        },
    decreases s.len() - i,
{
    if i < s.len() && !(s[i] is None) {
        lemma_first_open_bounds(s, i + 1);
    }
}

/// The open count from `i` never exceeds the number of slots from `i` on.
pub proof fn lemma_open_count_bounds(s: Seq<Option<Handle>>, i: int)
    requires
        0 <= i <= s.len(),
    ensures
        0 <= open_count_from(s, i) <= s.len() - i,
    decreases s.len() - i,
{
    if i < s.len() {
        lemma_open_count_bounds(s, i + 1);
    }
}

/// How overwriting position `j` changes the open count from `i`: not at all
/// when `j` lies below `i`, else by the difference in openness at `j`.
pub proof fn lemma_open_count_update(s: Seq<Option<Handle>>, j: int, v: Option<Handle>, i: int)
    requires
        0 <= i <= s.len(),
        0 <= j < s.len(),
    ensures
        open_count_from(s.update(j, v), i) == open_count_from(s, i) + if i <= j {
            (if v is None { 1int } else { 0int }) - (if s[j] is None { 1int } else { 0int })
        } else {
            0int
        },
    decreases s.len() - i,
{
    if i < s.len() {
        lemma_open_count_update(s, j, v, i + 1);
    }
}

/// A table has no open slot exactly when its open count is zero.
pub proof fn lemma_open_count_zero(s: Seq<Option<Handle>>, i: int)
    requires
        0 <= i <= s.len(),
    ensures
        (open_count_from(s, i) == 0) <==> (first_open_from(s, i) is None),
    decreases s.len() - i,
{
    if i < s.len() {
        lemma_open_count_zero(s, i + 1);
        lemma_open_count_bounds(s, i + 1);
    }
}

/// A stretch of all-empty slots has one open slot per position.
pub proof fn lemma_open_count_all_open(s: Seq<Option<Handle>>, i: int)
    requires
        0 <= i <= s.len(),
        forall|k: int| i <= k < s.len() ==> s[k] is None,
    ensures
        open_count_from(s, i) == s.len() - i,
    decreases s.len() - i,
{
    if i < s.len() {
        lemma_open_count_all_open(s, i + 1);
    }
}

/// The table contents after stowing the handles of `hs` in order, each into
/// the lowest slot open at its turn; a stow that finds no open slot changes
/// nothing.
pub open spec fn stow_all(s: Seq<Option<Handle>>, hs: Seq<Handle>) -> Seq<Option<Handle>>
    decreases hs.len(),
{
    if hs.len() == 0 {
        s
    } else {
        match add_spec(s, hs[0]) {
            Ok(pair) => stow_all(pair.0, hs.subrange(1, hs.len() as int)),
            Err(_) => s,
        }
    }
}

/// Whether every stow of the handles of `hs`, in order, finds an open slot.
pub open spec fn all_stows_succeed(s: Seq<Option<Handle>>, hs: Seq<Handle>) -> bool
    decreases hs.len(),
{
    if hs.len() == 0 {
        true
    } else {
        match add_spec(s, hs[0]) {
            Ok(pair) => all_stows_succeed(pair.0, hs.subrange(1, hs.len() as int)),
            Err(_) => false,
        }
    }
}

/// Law: as long as a table has at least as many open slots as there are
/// handles to stow, every stow succeeds, and each one lowers the open-slot
/// count by exactly one.
pub proof fn lemma_stow_sequence(s: Seq<Option<Handle>>, hs: Seq<Handle>)
    requires
        hs.len() <= open_count_from(s, 0),
    ensures
        all_stows_succeed(s, hs),
        stow_all(s, hs).len() == s.len(),
        open_count_from(stow_all(s, hs), 0) == open_count_from(s, 0) - hs.len(),
    decreases hs.len(),
{
    lemma_open_count_bounds(s, 0);
    if hs.len() > 0 {
        lemma_open_count_zero(s, 0);
        lemma_first_open_bounds(s, 0);
        let j = first_open_from(s, 0)->Some_0;
        let s2 = s.update(j, Some(stowed_at(hs[0], (j + 1) as u8)));
        lemma_open_count_update(s, j, Some(stowed_at(hs[0], (j + 1) as u8)), 0);
        lemma_stow_sequence(s2, hs.subrange(1, hs.len() as int));
    }
}

/// Law: any sequence of up to forty stows into a fresh table succeeds in
/// full and leaves the open-slot count at forty minus the number of stows;
/// once all forty slots are taken, one more stow fails with `InventoryFull`.
pub proof fn lemma_stow_sequence_fresh(hs: Seq<Handle>, extra: Handle)
    requires
        hs.len() <= CAPACITY as int,
    ensures
        all_stows_succeed(empty_table(), hs),
        open_count_from(stow_all(empty_table(), hs), 0) == CAPACITY as int - hs.len(),
        hs.len() == CAPACITY as int ==> add_spec(stow_all(empty_table(), hs), extra) == Err::<
            (Seq<Option<Handle>>, u8),
            InventoryError,
        >(InventoryError::InventoryFull),
{
    lemma_open_count_all_open(empty_table(), 0);
    lemma_stow_sequence(empty_table(), hs);
    if hs.len() == CAPACITY as int {
        lemma_open_count_zero(stow_all(empty_table(), hs), 0);
    }
}

/// The bounded inventory: forty slots, each empty or holding one handle.
#[derive(Debug, Clone, PartialEq, Eq)]
pub struct Inventory {
    pub slots: Vec<Option<Handle>>,
}

impl Inventory {
    /// Well-formedness: exactly forty slots, and every occupant records the
    /// index it occupies.
    pub open spec fn wf(&self) -> bool {
        table_wf(self.slots@)
    }

    /// A table of forty empty slots.
    pub fn new() -> (r: Self)
        ensures
            r.wf(),
            r.slots@ == empty_table(),
            open_count_from(r.slots@, 0) == CAPACITY as int,
    {
        let mut slots: Vec<Option<Handle>> = Vec::new();
        let mut i: usize = 0;
        while i < CAPACITY
            invariant
                i <= CAPACITY,
                slots@.len() == i as int,
                forall|k: int| 0 <= k < i as int ==> slots@[k] is None,
            decreases CAPACITY - i,
        {
            slots.push(None);
            i += 1;
        }
        proof {
            assert_seqs_equal!(slots@ == empty_table());
            lemma_open_count_all_open(slots@, 0);
        }
        Inventory { slots }
    }

    /// Scans indices in ascending order and returns the first open one, or
    /// `None` if all forty are occupied.
    pub fn find_open_slot(&self) -> (r: Option<u8>)
        requires
            self.wf(),
        ensures
            match r {
                Some(idx) => 1 <= idx <= CAPACITY && first_open_from(self.slots@, 0) == Some(
                    idx - 1,
                ),
                None => first_open_from(self.slots@, 0) is None,
            },
    {
        let mut i: usize = 0;
        while i < CAPACITY
            invariant
                self.wf(),
                i <= CAPACITY,
                forall|k: int| 0 <= k < i as int ==> self.slots@[k] is Some,
            decreases CAPACITY - i,
        {
            if self.slots[i].is_none() {
                proof {
                    lemma_first_open_skip(self.slots@, 0, i as int);
                }
                return Some((i as u8) + 1);
            }
            i += 1;
        }
        proof {
            lemma_first_open_skip(self.slots@, 0, CAPACITY as int);
        }
        None
    }

    /// Count of empty slots; a side-effect-free query for capacity reporting.
    pub fn get_open_slots(&self) -> (r: u8)
        requires
            self.wf(),
        ensures
            r as int == open_count_from(self.slots@, 0),
    {
        let mut count: u8 = 0;
        let mut i: usize = 0;
        while i < CAPACITY
            invariant
                self.wf(),
                i <= CAPACITY,
                count as int <= i as int,
                count as int + open_count_from(self.slots@, i as int) == open_count_from(
                    self.slots@,
                    0,
                ),
            decreases CAPACITY - i,
        {
            if self.slots[i].is_none() {
                count += 1;
            }
            i += 1;
        }
        count
    }

    /// Inserts `handle` into the lowest open slot, recording that index in
    /// the handle's own location field, and returns the index. When no slot
    /// is open, fails with `InventoryFull`, hands the handle back untouched,
    /// and changes nothing.
    pub fn add(&mut self, handle: Handle) -> (r: Result<u8, (Handle, InventoryError)>)
        requires
            old(self).wf(),
        ensures
            final(self).wf(),
            r is Err <==> open_count_from(old(self).slots@, 0) == 0,
            match r {
                Ok(idx) => {
                    &&& 1 <= idx <= CAPACITY
                    &&& old(self).slots@[idx - 1] is None
                    &&& forall|k: int| 0 <= k < idx - 1 ==> old(self).slots@[k] is Some
                    &&& final(self).slots@ == old(self).slots@.update(
                        idx - 1,
                        Some(stowed_at(handle, idx)),
                    )
                    &&& open_count_from(final(self).slots@, 0) == open_count_from(
                        old(self).slots@,
                        0,
                    ) - 1
                    &&& add_spec(old(self).slots@, handle) == Ok::<_, InventoryError>((
                        final(self).slots@,
                        idx,
                    ))
                },
                Err((h, e)) => {
                    &&& h == handle
                    &&& e == InventoryError::InventoryFull
                    &&& *final(self) == *old(self)
                    &&& add_spec(old(self).slots@, handle) == Err::<
                        (Seq<Option<Handle>>, u8),
                        _,
                    >(InventoryError::InventoryFull)
                },
            },
    {
        let ghost orig = handle;
        match self.find_open_slot() {
            None => {
                proof {
                    lemma_open_count_zero(self.slots@, 0);
                }
                Err((handle, InventoryError::InventoryFull))
            },
            Some(idx) => {
                let ghost s0 = self.slots@;
                let i = (idx - 1) as usize;
                let located = match handle {
                    Handle::Item(mut it) => {
                        it.inventory_slot = Some(idx);
                        Handle::Item(it)
                    },
                    Handle::Equipment(mut e) => {
                        e.location = Some(crate::items::EquipmentLocation::Stowed(idx));
                        Handle::Equipment(e)
                    },
                };
                proof {
                    assert(located == stowed_at(orig, idx));
                    lemma_first_open_bounds(s0, 0);
                    lemma_open_count_zero(s0, 0);
                    lemma_open_count_bounds(s0, 0);
                    lemma_open_count_update(s0, i as int, Some(located), 0);
                }
                self.slots.set(i, Some(located));
                proof {
                    assert forall|k: int| 0 <= k < CAPACITY as int implies located_at(
                        #[trigger] self.slots@[k],
                        k,
                    ) by {
                        if k != i as int {
                            assert(located_at(s0[k], k));
                        }
                    }
                }
                Ok(idx)
            },
        }
    }

    /// Removes and returns the occupant of `index` with its location cleared,
    /// leaving the slot empty; fails with `SlotEmpty`, changing nothing, if
    /// the slot holds nothing.
    pub fn remove(&mut self, index: u8) -> (r: Result<Handle, SlotEmpty>)
        requires
            old(self).wf(),
            1 <= index <= CAPACITY,
        ensures
            final(self).wf(),
            r is Err <==> old(self).slots@[index - 1] is None,
            match r {
                Ok(h) => {
                    &&& h == unlocated(old(self).slots@[index - 1]->Some_0)
                    &&& final(self).slots@ == old(self).slots@.update(index - 1, None::<Handle>)
                    &&& open_count_from(final(self).slots@, 0) == open_count_from(
                        old(self).slots@,
                        0,
                    ) + 1
                },
                Err(e) => {
                    &&& e == SlotEmpty
                    &&& *final(self) == *old(self)
                },
            },
    {
        let i = (index - 1) as usize;
        if self.slots[i].is_none() {
            return Err(SlotEmpty);
        }
        let ghost s0 = self.slots@;
        let mut taken: Option<Handle> = None;
        proof {
            lemma_open_count_update(self.slots@, i as int, None, 0);
        }
        self.slots.set_and_swap(i, &mut taken);
        proof {
            assert forall|k: int| 0 <= k < CAPACITY as int implies located_at(
                #[trigger] self.slots@[k],
                k,
            ) by {
                if k != i as int {
                    assert(located_at(s0[k], k));
                }
            }
        }
        match taken {
            Some(h) => {
                let ghost h0 = h;
                let cleared = match h {
                    Handle::Item(mut it) => {
                        it.inventory_slot = None;
                        Handle::Item(it)
                    },
                    Handle::Equipment(mut e) => {
                        e.location = None;
                        Handle::Equipment(e)
                    },
                };
                proof {
                    assert(cleared == unlocated(h0));
                }
                Ok(cleared)
            },
            None => vstd::pervasive::unreached(),
        }
    }

    /// The occupant of `index`, if any; a side-effect-free query.
    pub fn slot(&self, index: u8) -> (r: &Option<Handle>)
        requires
            self.wf(),
            1 <= index <= CAPACITY,
        ensures
            *r == self.slots@[index - 1],
    {
        &self.slots[(index - 1) as usize]
    }
}

} // verus!
