//! What holds of the slot protocol as a whole.
use vstd::prelude::*;
use crate::future::poll_of;
use crate::future::Await;
use crate::future::Coroutine;
use crate::future::CoroutineState;
use crate::future::Future;
use crate::future::FutureAdapter;
use crate::future::Poll;
use crate::slot::installed;
use crate::slot::restored;
use crate::slot::taken;
use crate::slot::violates_protocol;
use crate::slot::ContextSlot;
use crate::slot::Occupant;
use crate::slot::PollContext;
use crate::units::cell_of;
use crate::units::SlotMode;
use crate::units::UnitSlots;

verus! {

/// Nested scopes unwind in the order in which they were opened. An outer poll
/// installs `cx` over `before`; inside it the context is retrieved, which
/// empties the slot, and handed to an inner poll, which installs it again. The
/// inner poll sees `cx`, and each release puts back what its scope found, so
/// that after the last one the slot holds `before`.
pub proof fn lemma_nested_scopes_restore(before: Occupant, cx: PollContext)
    ensures
        ({
            let in_outer = installed(before, cx);
            let in_retrieval = taken(in_outer);
            let in_inner = installed(in_retrieval, in_outer->0);
            let after_inner = restored(in_inner, in_retrieval);
            let after_retrieval = restored(after_inner, in_outer);
            let after_outer = restored(after_retrieval, before);
            &&& in_inner == Some(cx)
            &&& after_inner == in_retrieval
            &&& after_retrieval == in_outer
            &&& after_outer == before
        }),
{
}

/// The same for the adapters themselves. Whenever an adapter whose machine
/// waits for a second adapter has been polled with `cx`, the slot is as it was
/// before the poll, the machine of the second adapter was resumed once, on a
/// slot that held `cx`, and the outer poll reports what that resume gave.
pub proof fn lemma_nested_poll_restores<G: Coroutine>(
    before: FutureAdapter<Await<FutureAdapter<G>>>,
    after: FutureAdapter<Await<FutureAdapter<G>>>,
    slot_before: ContextSlot,
    slot_after: ContextSlot,
    cx: PollContext,
    p: Poll<G::Return>,
)
    requires
        exists|outer: &mut FutureAdapter<Await<FutureAdapter<G>>>, slot: &mut ContextSlot|
            {
                &&& *outer == before
                &&& *final(outer) == after
                &&& *slot == slot_before
                &&& *final(slot) == slot_after
                &&& call_ensures(
                    <FutureAdapter<Await<FutureAdapter<G>>> as Future>::poll,
                    (outer, slot, cx),
                    p,
                )
            },
    ensures
        slot_after@ == slot_before@,
        exists|machine: &mut G, inner_slot: &mut ContextSlot, state: CoroutineState<G::Return>|
            {
                &&& *machine == before.machine().inner().machine()
                &&& *final(machine) == after.machine().inner().machine()
                &&& (*inner_slot)@ == Some(cx)
                &&& call_ensures(G::resume, (machine, inner_slot), state)
                &&& p == poll_of(state)
            },
{
}

/// A release does not look at the slot. The guard of a scope that was opened
/// on a slot holding `before` owns `before`; the scope may be left at any point,
/// with the slot in any state `left`, after a failure in its middle as well as
/// at its end, and the release puts `before` back.
pub proof fn lemma_release_restores_from_any_state(before: Occupant, left: Occupant)
    ensures
        restored(left, before) == before,
{
}

/// A retrieval is exclusive. While its guard is held a second retrieval from
/// the same slot breaks the protocol, whatever the slot held before the first;
/// once the guard is released a retrieval is in order again exactly if it was
/// before.
pub proof fn lemma_second_retrieval_violates(before: Occupant)
    ensures
        violates_protocol(taken(before)),
        violates_protocol(restored(taken(before), before)) == violates_protocol(before),
{
}

/// Inside a poll a retrieval is always in order: the poll has installed its
/// context.
pub proof fn lemma_retrieval_inside_poll(before: Occupant, cx: PollContext)
    ensures
        !violates_protocol(installed(before, cx)),
{
}

/// With the default layout execution units do not interfere: what one unit
/// leaves in its slot does not show in the slot of another.
pub proof fn lemma_per_unit_slots_are_isolated(
    slots: UnitSlots,
    unit: int,
    other: int,
    left: Occupant,
)
    requires
        slots.mode() == SlotMode::PerUnit,
        slots.serves(unit),
        slots.serves(other),
        unit != other,
    ensures
        slots.cells().update(cell_of(slots.mode(), unit), left)[cell_of(slots.mode(), other)]
            == slots.occupant_of(other),
{
}

/// With the shared layout every execution unit finds what any other left
/// behind, which is why that layout is for a single unit only.
pub proof fn lemma_shared_slot_is_one_cell(slots: UnitSlots, unit: int, other: int, left: Occupant)
    requires
        slots.mode() == SlotMode::UnsafeSharedSingleUnit,
        slots.serves(unit),
        slots.serves(other),
    ensures
        slots.occupant_of(unit) == slots.occupant_of(other),
        slots.cells().update(cell_of(slots.mode(), unit), left)[cell_of(slots.mode(), other)]
            == left,
{
}

/// With exactly one execution unit the two layouts cannot be told apart. The
/// unit is served under both, it finds the same occupant, and what it leaves in
/// its slot lands in the same cell, so that storages with equal contents have
/// equal contents afterwards. Everything that holds of a slot holds of that
/// cell under either layout.
pub proof fn lemma_single_unit_layouts_agree(
    shared: UnitSlots,
    per_unit: UnitSlots,
    unit: int,
    left: Occupant,
)
    requires
        shared.mode() == SlotMode::UnsafeSharedSingleUnit,
        per_unit.mode() == SlotMode::PerUnit,
        per_unit.cells().len() == 1,
        per_unit.serves(unit),
        shared.cells() == per_unit.cells(),
    ensures
        unit == 0,
        shared.serves(unit),
        shared.occupant_of(unit) == per_unit.occupant_of(unit),
        shared.cells().update(cell_of(shared.mode(), unit), left) == per_unit.cells().update(
            cell_of(per_unit.mode(), unit),
            left,
        ),
{
}

} // verus!
