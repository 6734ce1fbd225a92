use std::cell::RefCell;
use std::rc::Rc;

use task_context::future::from_generator;
use task_context::future::get_task_context;
use task_context::future::poll_from_state;
use task_context::future::poll_with_tls_context;
use task_context::future::Await;
use task_context::future::Coroutine;
use task_context::future::CoroutineState;
use task_context::future::Future;
use task_context::future::Poll;
use task_context::slot::ContextSlot;
use task_context::slot::PollContext;

/// Suspends `suspensions` times, then completes with `value`. Notes what the
/// slot held at each resume.
struct Countdown {
    suspensions: u32,
    value: i32,
    seen: Rc<RefCell<Vec<Option<PollContext>>>>,
}

impl Countdown {
    fn new(suspensions: u32, value: i32) -> (Countdown, Rc<RefCell<Vec<Option<PollContext>>>>) {
        let seen = Rc::new(RefCell::new(Vec::new()));
        (Countdown { suspensions, value, seen: seen.clone() }, seen)
    }
}

impl Coroutine for Countdown {
    type Return = i32;

    fn resume(&mut self, slot: &mut ContextSlot) -> CoroutineState<i32> {
        self.seen.borrow_mut().push(slot.current());
        if self.suspensions == 0 {
            CoroutineState::Completed(self.value)
        } else {
            self.suspensions -= 1;
            CoroutineState::Suspended
        }
    }
}

/// Retrieves the ambient context on each resume and completes with its token.
struct AskForContext;

impl Coroutine for AskForContext {
    type Return = usize;

    fn resume(&mut self, slot: &mut ContextSlot) -> CoroutineState<usize> {
        let token = get_task_context(slot, |inner: &mut ContextSlot, cx: PollContext| {
            assert_eq!(inner.current(), None);
            cx.token
        });
        CoroutineState::Completed(token)
    }
}

/// Overwrites the slot and gives its guard away without releasing it.
struct Litterer;

impl Coroutine for Litterer {
    type Return = ();

    fn resume(&mut self, slot: &mut ContextSlot) -> CoroutineState<()> {
        let _unreleased = slot.install(PollContext { token: 999 });
        CoroutineState::Suspended
    }
}

/// Completes with a failure value.
struct Failing;

impl Coroutine for Failing {
    type Return = Result<u8, String>;

    fn resume(&mut self, slot: &mut ContextSlot) -> CoroutineState<Result<u8, String>> {
        let (_cx, guard) = slot.take();
        let outcome = Err(String::from("boom"));
        slot.restore(guard);
        CoroutineState::Completed(outcome)
    }
}

const C1: PollContext = PollContext { token: 1 };
const C2: PollContext = PollContext { token: 2 };

#[test]
fn poll_from_state_maps_both_outcomes() {
    assert_eq!(poll_from_state(CoroutineState::<i32>::Suspended), Poll::Pending);
    assert_eq!(poll_from_state(CoroutineState::Completed(7)), Poll::Ready(7));
    assert_eq!(
        poll_from_state(CoroutineState::Completed(Err::<u8, &str>("bad"))),
        Poll::Ready(Err("bad"))
    );
}

#[test]
fn suspends_once_then_completes_with_42() {
    let mut slot = ContextSlot::new();
    let (machine, seen) = Countdown::new(1, 42);
    let mut a = from_generator(machine);

    assert_eq!(a.poll(&mut slot, C1), Poll::Pending);
    assert_eq!(slot.current(), None);
    assert_eq!(a.poll(&mut slot, C1), Poll::Ready(42));
    assert_eq!(slot.current(), None);
    assert_eq!(*seen.borrow(), vec![Some(C1), Some(C1)]);
}

#[test]
fn poll_restores_an_occupied_slot() {
    let mut slot = ContextSlot::new();
    let outer_guard = slot.install(C1);
    let (machine, seen) = Countdown::new(1, 42);
    let mut a = from_generator(machine);

    assert_eq!(a.poll(&mut slot, C2), Poll::Pending);
    assert_eq!(slot.current(), Some(C1));
    assert_eq!(a.poll(&mut slot, C1), Poll::Ready(42));
    assert_eq!(slot.current(), Some(C1));
    assert_eq!(*seen.borrow(), vec![Some(C2), Some(C1)]);

    slot.restore(outer_guard);
    assert_eq!(slot.current(), None);
}

#[test]
fn machine_that_never_suspends_is_ready_at_once() {
    let mut slot = ContextSlot::new();
    let (machine, _seen) = Countdown::new(0, -5);
    let mut a = from_generator(machine);
    assert_eq!(a.poll(&mut slot, C1), Poll::Ready(-5));
}

#[test]
fn machine_reaches_the_context_of_its_poll() {
    let mut slot = ContextSlot::new();
    let mut a = from_generator(AskForContext);
    assert_eq!(a.poll(&mut slot, PollContext { token: 77 }), Poll::Ready(77));
    assert_eq!(slot.current(), None);
    assert_eq!(a.poll(&mut slot, C2), Poll::Ready(2));
    assert_eq!(slot.current(), None);
}

#[test]
fn nested_adapter_observes_the_outer_context() {
    let mut slot = ContextSlot::new();
    let pre = slot.install(PollContext { token: 5 });
    let (machine, seen) = Countdown::new(1, 42);
    let b = from_generator(machine);
    let mut a = from_generator(Await::new(b));

    assert_eq!(a.poll(&mut slot, C1), Poll::Pending);
    assert_eq!(slot.current(), Some(PollContext { token: 5 }));
    assert_eq!(a.poll(&mut slot, C2), Poll::Ready(42));
    assert_eq!(slot.current(), Some(PollContext { token: 5 }));
    assert_eq!(*seen.borrow(), vec![Some(C1), Some(C2)]);

    slot.restore(pre);
    assert_eq!(slot.current(), None);
}

#[test]
fn three_levels_of_nesting_restore() {
    let mut slot = ContextSlot::new();
    let (machine, seen) = Countdown::new(2, 9);
    let c = from_generator(machine);
    let b = from_generator(Await::new(c));
    let mut a = from_generator(Await::new(b));

    assert_eq!(a.poll(&mut slot, C1), Poll::Pending);
    assert_eq!(slot.current(), None);
    assert_eq!(a.poll(&mut slot, C1), Poll::Pending);
    assert_eq!(a.poll(&mut slot, C2), Poll::Ready(9));
    assert_eq!(slot.current(), None);
    assert_eq!(*seen.borrow(), vec![Some(C1), Some(C1), Some(C2)]);
}

#[test]
fn poll_with_tls_context_hands_the_installed_context_on() {
    let mut slot = ContextSlot::new();
    let guard = slot.install(C2);
    let (machine, seen) = Countdown::new(0, 3);
    let mut b = from_generator(machine);

    assert_eq!(poll_with_tls_context(&mut slot, &mut b), Poll::Ready(3));
    assert_eq!(slot.current(), Some(C2));
    assert_eq!(*seen.borrow(), vec![Some(C2)]);
    slot.restore(guard);
}

#[test]
fn poll_restores_after_a_machine_that_leaves_the_slot_overwritten() {
    let mut slot = ContextSlot::new();
    let mut a = from_generator(Litterer);
    assert_eq!(a.poll(&mut slot, C1), Poll::Pending);
    assert_eq!(slot.current(), None);

    let guard = slot.install(C2);
    assert_eq!(a.poll(&mut slot, C1), Poll::Pending);
    assert_eq!(slot.current(), Some(C2));
    slot.restore(guard);
}

#[test]
fn failure_value_passes_through_and_slot_is_restored() {
    let mut slot = ContextSlot::new();
    let guard = slot.install(C2);
    let mut a = from_generator(Failing);
    assert_eq!(a.poll(&mut slot, C1), Poll::Ready(Err(String::from("boom"))));
    assert_eq!(slot.current(), Some(C2));
    slot.restore(guard);
    assert_eq!(slot.current(), None);
}

#[test]
fn dropping_an_adapter_mid_flight_leaves_the_slot_alone() {
    let mut slot = ContextSlot::new();
    let guard = slot.install(C1);
    {
        let (machine, _seen) = Countdown::new(3, 1);
        let mut a = from_generator(machine);
        assert_eq!(a.poll(&mut slot, C2), Poll::Pending);
    }
    assert_eq!(slot.current(), Some(C1));
    slot.restore(guard);
}
