//! The context slot of one execution unit, and the guard that restores it.
use vstd::prelude::*;

verus! {

/// Handle of a poll context that a driver supplies for the length of one poll.
///
/// The library never looks behind the handle: it stores it, hands it out and
/// compares it. What the token stands for is the driver's business.
#[derive(Clone, Copy, Debug, PartialEq, Eq, Structural)]
pub struct PollContext {
    pub token: usize,
}

/// What a slot holds: nothing, or the one context that is installed.
pub type Occupant = Option<PollContext>;

/// The occupant after a context has been installed over `before`.
pub open spec fn installed(before: Occupant, cx: PollContext) -> Occupant {
    Some(cx)
}

/// The occupant after the content `before` has been taken out.
pub open spec fn taken(before: Occupant) -> Occupant {
    None
}

/// The occupant after a guard that owns `saved` has been released.
pub open spec fn restored(current: Occupant, saved: Occupant) -> Occupant {
    saved
}

/// Retrieval from a slot with this occupant breaks the protocol.
pub open spec fn violates_protocol(occupant: Occupant) -> bool {
    occupant is None
}

/// The one failure of this library: a context was asked for where the slot of
/// the execution unit held none, because no poll is in progress or because the
/// context is already taken and not yet restored.
#[derive(Clone, Copy, Debug, PartialEq, Eq, Structural)]
pub struct ProtocolViolation;

/// Storage of one execution unit for the ambient poll context.
#[derive(Debug)]
pub struct ContextSlot {
    occupant: Option<PollContext>,
}

/// Owner of what was removed from a slot, to be written back exactly once.
///
/// A guard cannot be copied, and [`ContextSlot::restore`] consumes it.
#[derive(Debug)]
pub struct ContextGuard {
    saved: Option<PollContext>,
}

impl View for ContextSlot {
    type V = Occupant;

    closed spec fn view(&self) -> Occupant {
        self.occupant
    }
}

impl View for ContextGuard {
    type V = Occupant;

    closed spec fn view(&self) -> Occupant {
        self.saved
    }
}

impl ContextSlot {
    /// An empty slot: no poll is in progress.
    pub fn new() -> (slot: ContextSlot)
        ensures
            slot@ is None,
    {
        ContextSlot { occupant: None }
    }

    /// A look at the slot: the context that is installed, if any. The slot is
    /// left as it is; code that needs the context takes it.
    pub fn current(&self) -> (occupant: Option<PollContext>)
        ensures
            occupant == self@,
    {
        self.occupant
    }

    /// Overwrites the slot with `cx`, whatever it held, and hands the previous
    /// content to a guard.
    pub fn install(&mut self, cx: PollContext) -> (guard: ContextGuard)
        ensures
            final(self)@ == installed(old(self)@, cx),
            guard@ == old(self)@,
    {
        let saved = self.occupant;
        self.occupant = Some(cx);
        ContextGuard { saved }
    }

    /// Removes the installed context and returns it with the guard that will
    /// put it back. While the guard is held the slot is empty, so a second
    /// retrieval before the release breaks the protocol.
    pub fn take(&mut self) -> (out: (PollContext, ContextGuard))
        requires
            !violates_protocol(old(self)@),
        ensures
            final(self)@ == taken(old(self)@),
            out.0 == old(self)@->0,
            out.1@ == old(self)@,
    {
        let saved = self.occupant;
        self.occupant = None;
        (saved.unwrap(), ContextGuard { saved })
    }

    /// As [`ContextSlot::take`], for a caller that cannot know whether a context
    /// is installed: on an empty slot it reports the violation and leaves the
    /// slot empty.
    pub fn try_take(&mut self) -> (out: Result<(PollContext, ContextGuard), ProtocolViolation>)
        ensures
            out is Err <==> violates_protocol(old(self)@),
            out is Err ==> final(self)@ == old(self)@,
            out matches Ok(pair) ==> {
                &&& final(self)@ == taken(old(self)@)
                &&& pair.0 == old(self)@->0
                &&& pair.1@ == old(self)@
            },
    {
        if self.occupant.is_some() {
            Ok(self.take())
        } else {
            Err(ProtocolViolation)
        }
    }

    /// Releases `guard`: the slot holds again what the guard owned.
    pub fn restore(&mut self, guard: ContextGuard)
        ensures
            final(self)@ == restored(old(self)@, guard@),
    {
        self.occupant = guard.saved;
    }
}

} // verus!
