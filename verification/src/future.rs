//! Suspendable computations polled through the context slot.
use vstd::prelude::*;
use crate::slot::violates_protocol;
use crate::slot::ContextSlot;
use crate::slot::PollContext;
use crate::slot::ProtocolViolation;

verus! {

/// Outcome of resuming a suspendable computation once.
#[derive(Clone, Copy, Debug, PartialEq, Eq)]
pub enum CoroutineState<R> {
    /// More work remains; no value yet.
    Suspended,
    /// The computation has ended with this value.
    Completed(R),
}

/// Outcome of one poll.
#[derive(Clone, Copy, Debug, PartialEq, Eq)]
pub enum Poll<T> {
    /// Not ready yet: the driver polls again once it is woken.
    Pending,
    /// The final value.
    Ready(T),
}

/// A resumable state machine. Its one operation advances it to its next
/// suspension point or to its end.
///
/// A resume happens inside a poll: the slot it is given holds a context, which
/// the machine reaches through [`get_task_context`].
pub trait Coroutine {
    type Return;

    fn resume(&mut self, slot: &mut ContextSlot) -> (state: CoroutineState<Self::Return>)
        requires
            !violates_protocol(old(slot)@),
    ;
}

/// A computation that a driver advances by polling it with a context, on the
/// slot of the execution unit on which the poll runs.
pub trait Future {
    type Output;

    fn poll(&mut self, slot: &mut ContextSlot, cx: PollContext) -> (p: Poll<Self::Output>);
}

/// What a poll reports for a resume that ended in `state`.
pub open spec fn poll_of<R>(state: CoroutineState<R>) -> Poll<R> {
    match state {
        CoroutineState::Suspended => Poll::Pending,
        CoroutineState::Completed(value) => Poll::Ready(value),
    }
}

/// Turns the outcome of a resume into the outcome of the poll around it. The
/// value of a completed computation is passed through unexamined.
pub fn poll_from_state<R>(state: CoroutineState<R>) -> (p: Poll<R>)
    ensures
        p == poll_of(state),
{
    match state {
        CoroutineState::Suspended => Poll::Pending,
        CoroutineState::Completed(value) => Poll::Ready(value),
    }
}

/// Runs `f` with `cx` installed in the slot. What the slot held before is back
/// when this returns, whatever `f` did to the slot and whatever it returns.
pub fn set_task_context<F, R>(slot: &mut ContextSlot, cx: PollContext, f: F) -> (r: R)
    where F: FnOnce(&mut ContextSlot) -> R
    requires
        forall|s: &mut ContextSlot| (*s)@ == Some(cx) ==> f.requires((s,)),
    ensures
        final(slot)@ == old(slot)@,
        exists|s: &mut ContextSlot| (*s)@ == Some(cx) && f.ensures((s,), r),
{
    let guard = slot.install(cx);
    let r = f(slot);
    slot.restore(guard);
    r
}

/// Runs `f` with the installed context, which is out of the slot while `f` runs:
/// `f` has it alone, and a retrieval nested in `f` finds the slot empty. The
/// context is back in the slot when this returns.
pub fn get_task_context<F, R>(slot: &mut ContextSlot, f: F) -> (r: R)
    where F: FnOnce(&mut ContextSlot, PollContext) -> R
    requires
        !violates_protocol(old(slot)@),
        forall|s: &mut ContextSlot| (*s)@ is None ==> f.requires((s, old(slot)@->0)),
    ensures
        final(slot)@ == old(slot)@,
        exists|s: &mut ContextSlot| (*s)@ is None && f.ensures((s, old(slot)@->0), r),
{
    let (cx, guard) = slot.take();
    let r = f(slot, cx);
    slot.restore(guard);
    r
}

/// As [`get_task_context`], for a caller that cannot know whether a context is
/// installed. On an empty slot `f` is not run, the violation is reported and the
/// slot stays empty.
pub fn try_get_task_context<F, R>(slot: &mut ContextSlot, f: F) -> (out: Result<
    R,
    ProtocolViolation,
>)
    where F: FnOnce(&mut ContextSlot, PollContext) -> R
    requires
        forall|s: &mut ContextSlot|
            old(slot)@ is Some && (*s)@ is None ==> f.requires((s, old(slot)@->0)),
    ensures
        final(slot)@ == old(slot)@,
        out is Err <==> violates_protocol(old(slot)@),
        out matches Ok(r) ==> exists|s: &mut ContextSlot|
            (*s)@ is None && f.ensures((s, old(slot)@->0), r),
{
    if slot.current().is_some() {
        Ok(get_task_context(slot, f))
    } else {
        Err(ProtocolViolation)
    }
}

/// Adapter that lets a driver poll a resumable state machine.
///
/// The machine is placed on the heap when the adapter is made and stays at that
/// address for as long as the adapter lives: nothing hands the machine out, by
/// value or by reference. The adapter has no state besides the machine.
pub struct FutureAdapter<G: Coroutine> {
    machine: Box<G>,
}

impl<G: Coroutine> FutureAdapter<G> {
    /// The state machine that the adapter wraps, as it stands now.
    pub closed spec fn machine(&self) -> G {
        *self.machine
    }
}

impl<G: Coroutine> Future for FutureAdapter<G> {
    type Output = G::Return;

    fn poll(&mut self, slot: &mut ContextSlot, cx: PollContext) -> (p: Poll<G::Return>)
        ensures
            final(slot)@ == old(slot)@,
            exists|g: &mut G, s: &mut ContextSlot, state: CoroutineState<G::Return>|
                {
                    &&& *g == old(self).machine()
                    &&& *final(g) == final(self).machine()
                    &&& (*s)@ == Some(cx)
                    &&& call_ensures(G::resume, (g, s), state)
                    &&& p == poll_of(state)
                },
    {
        let guard = slot.install(cx);
        let machine: &mut G = &mut *self.machine;
        let state = machine.resume(slot);
        slot.restore(guard);
        poll_from_state(state)
    }
}

/// Wraps a resumable state machine, which the adapter owns from here on.
pub fn from_generator<G: Coroutine>(x: G) -> (adapter: FutureAdapter<G>)
    ensures
        adapter.machine() == x,
{
    FutureAdapter { machine: Box::new(x) }
}

/// Polls `f` with the context that is installed in the slot: the context is
/// taken out, handed to the poll, and put back. This is how a state machine
/// drives a computation nested in it, without having the context passed down.
pub fn poll_with_tls_context<F: Future>(slot: &mut ContextSlot, f: &mut F) -> (p: Poll<F::Output>)
    requires
        !violates_protocol(old(slot)@),
    ensures
        final(slot)@ == old(slot)@,
        exists|inner: &mut F, s: &mut ContextSlot|
            {
                &&& *inner == *old(f)
                &&& *final(inner) == *final(f)
                &&& (*s)@ is None
                &&& call_ensures(F::poll, (inner, s, old(slot)@->0), p)
            },
{
    let (cx, guard) = slot.take();
    let p = f.poll(slot, cx);
    slot.restore(guard);
    p
}

/// What a state machine reports when the computation it waits for was polled
/// with outcome `p`.
pub open spec fn state_of<T>(p: Poll<T>) -> CoroutineState<T> {
    match p {
        Poll::Pending => CoroutineState::Suspended,
        Poll::Ready(value) => CoroutineState::Completed(value),
    }
}

/// The state machine of a computation that waits for another one and ends with
/// its value. Each resume polls the inner computation once, with the context
/// that is installed at that moment.
pub struct Await<F: Future> {
    inner: F,
}

impl<F: Future> Await<F> {
    /// The computation that is waited for, as it stands now.
    pub closed spec fn inner(&self) -> F {
        self.inner
    }

    /// A machine that has not yet polled `inner`.
    pub fn new(inner: F) -> (machine: Await<F>)
        ensures
            machine.inner() == inner,
    {
        Await { inner }
    }
}

impl<F: Future> Coroutine for Await<F> {
    type Return = F::Output;

    fn resume(&mut self, slot: &mut ContextSlot) -> (state: CoroutineState<F::Output>)
        ensures
            final(slot)@ == old(slot)@,
            exists|inner: &mut F, s: &mut ContextSlot, p: Poll<F::Output>|
                {
                    &&& *inner == old(self).inner()
                    &&& *final(inner) == final(self).inner()
                    &&& (*s)@ is None
                    &&& call_ensures(F::poll, (inner, s, old(slot)@->0), p)
                    &&& state == state_of(p)
                },
    {
        match poll_with_tls_context(slot, &mut self.inner) {
            Poll::Pending => CoroutineState::Suspended,
            Poll::Ready(value) => CoroutineState::Completed(value),
        }
    }
}

} // verus!
