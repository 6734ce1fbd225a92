//! Where the slot of an execution unit is kept.
use vstd::prelude::*;
use crate::slot::ContextSlot;
use crate::slot::Occupant;

verus! {

/// How slots are laid out over the execution units.
#[derive(Clone, Copy, Debug, PartialEq, Eq, Structural)]
pub enum SlotMode {
    /// Every execution unit has a cell of its own. This is the default.
    PerUnit,
    /// All execution units are collapsed onto one cell. Only for a deployment
    /// that has a single execution unit for its whole life: with a second unit,
    /// each sees and overwrites what the other installed.
    UnsafeSharedSingleUnit,
}

/// The cell that execution unit `unit` uses under `mode`.
pub open spec fn cell_of(mode: SlotMode, unit: int) -> int {
    match mode {
        SlotMode::PerUnit => unit,
        SlotMode::UnsafeSharedSingleUnit => 0,
    }
}

/// The context slots of a set of execution units.
pub struct UnitSlots {
    mode: SlotMode,
    cells: Vec<ContextSlot>,
}

impl UnitSlots {
    #[verifier::type_invariant]
    spec fn shared_means_one_cell(self) -> bool {
        self.mode == SlotMode::UnsafeSharedSingleUnit ==> self.cells@.len() == 1
    }

    /// The layout that was chosen when the storage was made.
    pub closed spec fn mode(&self) -> SlotMode {
        self.mode
    }

    /// What each cell holds.
    pub closed spec fn cells(&self) -> Seq<Occupant> {
        Seq::new(self.cells@.len(), |i: int| self.cells@[i]@)
    }

    /// The storage has a cell for execution unit `unit`.
    pub open spec fn serves(&self, unit: int) -> bool {
        0 <= cell_of(self.mode(), unit) < self.cells().len() && 0 <= unit
    }

    /// What execution unit `unit` finds in its slot.
    pub open spec fn occupant_of(&self, unit: int) -> Occupant {
        self.cells()[cell_of(self.mode(), unit)]
    }

    /// Storage with one empty cell for each of `units` execution units.
    pub fn per_unit(units: usize) -> (slots: UnitSlots)
        ensures
            slots.mode() == SlotMode::PerUnit,
            slots.cells() == Seq::new(units as nat, |i: int| None::<crate::slot::PollContext>),
    {
        let mut cells: Vec<ContextSlot> = Vec::new();
        let mut made: usize = 0;
        while made < units
            invariant
                made <= units,
                cells@.len() == made,
                forall|i: int| 0 <= i < made ==> (#[trigger] cells@[i])@ is None,
            decreases units - made,
        {
            cells.push(ContextSlot::new());
            made = made + 1;
        }
        let slots = UnitSlots { mode: SlotMode::PerUnit, cells };
        assert(slots.cells() =~= Seq::new(units as nat, |i: int| None::<crate::slot::PollContext>));
        slots
    }

    /// Storage with a single empty cell that every execution unit uses.
    pub fn unsafe_shared_single_unit() -> (slots: UnitSlots)
        ensures
            slots.mode() == SlotMode::UnsafeSharedSingleUnit,
            slots.cells() == seq![None::<crate::slot::PollContext>],
    {
        let mut cells: Vec<ContextSlot> = Vec::new();
        cells.push(ContextSlot::new());
        let slots = UnitSlots { mode: SlotMode::UnsafeSharedSingleUnit, cells };
        assert(slots.cells() =~= seq![None::<crate::slot::PollContext>]);
        slots
    }

    /// The layout that was chosen when the storage was made.
    pub fn layout(&self) -> (mode: SlotMode)
        ensures
            mode == self.mode(),
    {
        self.mode
    }

    /// Whether the storage has a cell for execution unit `unit`.
    pub fn has_unit(&self, unit: usize) -> (served: bool)
        ensures
            served == self.serves(unit as int),
    {
        proof {
            use_type_invariant(self);
        }
        match self.mode {
            SlotMode::PerUnit => unit < self.cells.len(),
            SlotMode::UnsafeSharedSingleUnit => true,
        }
    }

    /// The slot of execution unit `unit`. What is done to it shows in the cell
    /// of that unit and in no other cell.
    pub fn slot_mut(&mut self, unit: usize) -> (slot: &mut ContextSlot)
        requires
            old(self).serves(unit as int),
        ensures
            (*slot)@ == old(self).occupant_of(unit as int),
            final(self).mode() == old(self).mode(),
            final(self).cells() == old(self).cells().update(
                cell_of(old(self).mode(), unit as int),
                (*final(slot))@,
            ),
    {
        proof {
            use_type_invariant(&*self);
        }
        let index: usize = match self.mode {
            SlotMode::PerUnit => unit,
            SlotMode::UnsafeSharedSingleUnit => 0,
        };
        &mut self.cells[index]
    }
}

} // verus!
