use guest_tasks::ids::{StoreId, TaskId};
use guest_tasks::task::TaskDone;
use guest_tasks::wait::{GuestTaskHandleState, Poll};
use guest_tasks::waker::WakerLog;
use std::sync::atomic::{AtomicUsize, Ordering};
use std::sync::{Arc, Mutex};
use std::task::{Wake, Waker};

#[derive(Default)]
struct WakeCounter {
    wakes: AtomicUsize,
}

impl Wake for WakeCounter {
    fn wake(self: Arc<Self>) {
        self.wakes.fetch_add(1, Ordering::SeqCst);
    }

    fn wake_by_ref(self: &Arc<Self>) {
        self.wakes.fetch_add(1, Ordering::SeqCst);
    }
}

fn waker(counter: &Arc<WakeCounter>) -> Waker {
    Waker::from(counter.clone())
}

fn future(store: u64) -> TaskDone {
    TaskDone::new(StoreId { id: store }, TaskId { index: 0 })
}

fn poll(done: &mut TaskDone, state: &mut GuestTaskHandleState, waker: &Waker) -> Poll<()> {
    assert!(state.accepts(done.waiter));
    done.poll_state(state, waker)
}

fn complete(state: &mut GuestTaskHandleState) {
    state.complete().wake_all(&mut WakerLog::new());
}

#[test]
fn task_done_waiter_is_removed_when_dropped() {
    let mut state = GuestTaskHandleState::new();
    let first_counter = Arc::new(WakeCounter::default());
    let first_waker = waker(&first_counter);
    let mut first = future(1);

    assert_eq!(poll(&mut first, &mut state, &first_waker), Poll::Pending);
    assert_eq!(state.active_waiters(), 1);
    assert_eq!(state.waiter_slots(), 1);

    first.release_state(&mut state);
    drop(first);
    assert_eq!(state.active_waiters(), 0);

    let second_counter = Arc::new(WakeCounter::default());
    let second_waker = waker(&second_counter);
    let mut second = future(2);
    assert_eq!(poll(&mut second, &mut state, &second_waker), Poll::Pending);
    assert_eq!(state.active_waiters(), 1);
    assert_eq!(state.waiter_slots(), 1);

    complete(&mut state);
    assert_eq!(first_counter.wakes.load(Ordering::SeqCst), 0);
    assert_eq!(second_counter.wakes.load(Ordering::SeqCst), 1);
    assert_eq!(poll(&mut second, &mut state, &second_waker), Poll::Ready(()));
}

#[test]
fn task_done_updates_its_registered_waker() {
    let mut state = GuestTaskHandleState::new();
    let first_counter = Arc::new(WakeCounter::default());
    let second_counter = Arc::new(WakeCounter::default());
    let first_waker = waker(&first_counter);
    let second_waker = waker(&second_counter);
    let mut done = future(1);

    assert_eq!(poll(&mut done, &mut state, &first_waker), Poll::Pending);
    assert_eq!(poll(&mut done, &mut state, &second_waker), Poll::Pending);
    assert_eq!(state.active_waiters(), 1);

    complete(&mut state);
    complete(&mut state);

    assert_eq!(first_counter.wakes.load(Ordering::SeqCst), 0);
    assert_eq!(second_counter.wakes.load(Ordering::SeqCst), 1);
    assert_eq!(poll(&mut done, &mut state, &second_waker), Poll::Ready(()));
}

#[test]
fn task_done_wakes_multiple_waiters_and_is_ready_after_completion() {
    let mut state = GuestTaskHandleState::new();
    let first_counter = Arc::new(WakeCounter::default());
    let second_counter = Arc::new(WakeCounter::default());
    let first_waker = waker(&first_counter);
    let second_waker = waker(&second_counter);
    let mut first = future(1);
    let mut second = future(2);

    assert_eq!(poll(&mut first, &mut state, &first_waker), Poll::Pending);
    assert_eq!(poll(&mut second, &mut state, &second_waker), Poll::Pending);
    assert_eq!(state.active_waiters(), 2);

    complete(&mut state);

    assert_eq!(first_counter.wakes.load(Ordering::SeqCst), 1);
    assert_eq!(second_counter.wakes.load(Ordering::SeqCst), 1);
    assert_eq!(poll(&mut first, &mut state, &first_waker), Poll::Ready(()));
    assert_eq!(poll(&mut second, &mut state, &second_waker), Poll::Ready(()));

    let third_counter = Arc::new(WakeCounter::default());
    let third_waker = waker(&third_counter);
    let mut third = future(3);
    assert_eq!(poll(&mut third, &mut state, &third_waker), Poll::Ready(()));
    assert_eq!(third_counter.wakes.load(Ordering::SeqCst), 0);
}

#[test]
fn same_waker_is_kept_and_woken_once() {
    let mut state = GuestTaskHandleState::new();
    let counter = Arc::new(WakeCounter::default());
    let own_waker = waker(&counter);
    let mut done = future(1);
    assert_eq!(poll(&mut done, &mut state, &own_waker), Poll::Pending);
    assert_eq!(poll(&mut done, &mut state, &own_waker), Poll::Pending);
    assert_eq!(done.waiter, Some(0));
    assert_eq!(state.waiter_slots(), 1);
    assert_eq!(Arc::strong_count(&counter), 3);
    complete(&mut state);
    assert_eq!(counter.wakes.load(Ordering::SeqCst), 1);
    assert_eq!(Arc::strong_count(&counter), 2);
}

#[test]
fn slots_are_reused_last_released_first() {
    let mut state = GuestTaskHandleState::new();
    let counter = Arc::new(WakeCounter::default());
    let own_waker = waker(&counter);
    let mut futures: Vec<TaskDone> = vec![future(1), future(1), future(1)];
    for done in futures.iter_mut() {
        assert_eq!(poll(done, &mut state, &own_waker), Poll::Pending);
    }
    assert_eq!(state.waiter_slots(), 3);
    futures[0].release_state(&mut state);
    futures[2].release_state(&mut state);
    assert_eq!(state.active_waiters(), 1);
    assert_eq!(state.waiter_slots(), 3);

    let mut next = future(1);
    assert_eq!(poll(&mut next, &mut state, &own_waker), Poll::Pending);
    assert_eq!(next.waiter, Some(2));
    let mut after_next = future(1);
    assert_eq!(poll(&mut after_next, &mut state, &own_waker), Poll::Pending);
    assert_eq!(after_next.waiter, Some(0));
    let mut last = future(1);
    assert_eq!(poll(&mut last, &mut state, &own_waker), Poll::Pending);
    assert_eq!(last.waiter, Some(3));
    assert_eq!(state.waiter_slots(), 4);
}

#[test]
fn releasing_twice_frees_a_slot_once() {
    let mut state = GuestTaskHandleState::new();
    let counter = Arc::new(WakeCounter::default());
    let own_waker = waker(&counter);
    let mut waiter: Option<usize> = None;
    assert_eq!(state.poll_complete(&mut waiter, &own_waker), Poll::Pending);
    assert_eq!(waiter, Some(0));
    state.remove_waiter(0);
    state.remove_waiter(0);
    assert!(!state.accepts(Some(0)));

    let mut first: Option<usize> = None;
    let mut second: Option<usize> = None;
    assert_eq!(state.poll_complete(&mut first, &own_waker), Poll::Pending);
    assert_eq!(state.poll_complete(&mut second, &own_waker), Poll::Pending);
    assert_eq!(first, Some(0));
    assert_eq!(second, Some(1));
}

#[test]
fn completion_voids_registrations() {
    let mut state = GuestTaskHandleState::new();
    let counter = Arc::new(WakeCounter::default());
    let own_waker = waker(&counter);
    let mut polled = future(1);
    let mut dropped = future(1);
    assert_eq!(poll(&mut polled, &mut state, &own_waker), Poll::Pending);
    assert_eq!(poll(&mut dropped, &mut state, &own_waker), Poll::Pending);
    assert!(!state.is_complete());
    complete(&mut state);
    assert!(state.is_complete());
    assert_eq!(state.active_waiters(), 0);
    assert_eq!(state.waiter_slots(), 0);
    assert_eq!(polled.waiter, Some(0));
    assert_eq!(poll(&mut polled, &mut state, &own_waker), Poll::Ready(()));
    assert_eq!(polled.waiter, None);
    assert!(state.accepts(dropped.waiter));
    dropped.release_state(&mut state);
    assert_eq!(dropped.waiter, None);
    assert_eq!(counter.wakes.load(Ordering::SeqCst), 2);
}

struct Named {
    name: u32,
    woken: Arc<Mutex<Vec<u32>>>,
}

impl Wake for Named {
    fn wake(self: Arc<Self>) {
        self.woken.lock().unwrap().push(self.name);
    }
}

#[test]
fn waiters_wake_in_slot_order() {
    let woken = Arc::new(Mutex::new(Vec::new()));
    let named = |name: u32| Waker::from(Arc::new(Named { name, woken: woken.clone() }));
    let mut state = GuestTaskHandleState::new();
    let mut futures: Vec<TaskDone> = vec![future(1), future(1), future(1)];
    for (done, name) in futures.iter_mut().zip([10, 20, 30]) {
        assert_eq!(poll(done, &mut state, &named(name)), Poll::Pending);
    }
    futures[1].release_state(&mut state);
    let mut late = future(1);
    assert_eq!(poll(&mut late, &mut state, &named(40)), Poll::Pending);
    assert_eq!(poll(&mut futures[0], &mut state, &named(50)), Poll::Pending);
    complete(&mut state);
    assert_eq!(*woken.lock().unwrap(), vec![50, 40, 30]);
}

#[test]
fn no_waker_is_retained_once_all_futures_are_dropped() {
    let mut state = GuestTaskHandleState::new();
    let counter = Arc::new(WakeCounter::default());
    let own_waker = waker(&counter);
    let mut futures: Vec<TaskDone> = vec![future(1), future(1)];
    for done in futures.iter_mut() {
        assert_eq!(poll(done, &mut state, &own_waker), Poll::Pending);
    }
    assert_eq!(Arc::strong_count(&counter), 4);
    for done in futures.iter_mut() {
        done.release_state(&mut state);
    }
    assert_eq!(Arc::strong_count(&counter), 2);
    assert_eq!((state.active_waiters(), state.waiter_slots()), (0, 2));
    complete(&mut state);
    assert_eq!(counter.wakes.load(Ordering::SeqCst), 0);
}

struct Reentrant {
    state: Mutex<Option<Arc<Mutex<GuestTaskHandleState>>>>,
    wakes: AtomicUsize,
}

impl Wake for Reentrant {
    fn wake(self: Arc<Self>) {
        self.wakes.fetch_add(1, Ordering::SeqCst);
        let shared = self.state.lock().unwrap().clone().unwrap();
        let mut state = shared.try_lock().expect("should not be contended");
        assert!(state.is_complete());
        let mut waiter: Option<usize> = None;
        let own_waker = Waker::from(Arc::new(WakeCounter::default()));
        assert_eq!(state.poll_complete(&mut waiter, &own_waker), Poll::Ready(()));
        let nested = state.complete();
        drop(state);
        nested.wake_all(&mut WakerLog::new());
    }
}

#[test]
fn wakers_may_reach_for_the_state() {
    let shared = Arc::new(Mutex::new(GuestTaskHandleState::new()));
    let reentrant = Arc::new(Reentrant {
        state: Mutex::new(Some(shared.clone())),
        wakes: AtomicUsize::new(0),
    });
    let own_waker = Waker::from(reentrant.clone());
    let mut first = future(1);
    let mut second = future(1);
    assert_eq!(poll(&mut first, &mut shared.lock().unwrap(), &own_waker), Poll::Pending);
    assert_eq!(poll(&mut second, &mut shared.lock().unwrap(), &own_waker), Poll::Pending);
    let wakeups = shared.lock().unwrap().complete();
    assert_eq!(reentrant.wakes.load(Ordering::SeqCst), 0);
    wakeups.wake_all(&mut WakerLog::new());
    assert_eq!(reentrant.wakes.load(Ordering::SeqCst), 2);
    *reentrant.state.lock().unwrap() = None;
}

#[test]
fn wakers_are_cloned_to_be_registered_only() {
    let mut state = GuestTaskHandleState::new();
    let first_counter = Arc::new(WakeCounter::default());
    let second_counter = Arc::new(WakeCounter::default());
    let first_waker = waker(&first_counter);
    let second_waker = waker(&second_counter);
    let mut done = future(1);
    assert_eq!(poll(&mut done, &mut state, &first_waker), Poll::Pending);
    assert_eq!(Arc::strong_count(&first_counter), 3);
    assert_eq!(poll(&mut done, &mut state, &first_waker), Poll::Pending);
    assert_eq!(Arc::strong_count(&first_counter), 3);
    assert_eq!(poll(&mut done, &mut state, &second_waker), Poll::Pending);
    assert_eq!(Arc::strong_count(&first_counter), 2);
    assert_eq!(Arc::strong_count(&second_counter), 3);
    complete(&mut state);
    assert_eq!(poll(&mut done, &mut state, &second_waker), Poll::Ready(()));
    assert_eq!(Arc::strong_count(&second_counter), 2);
}

#[test]
fn slots_do_not_pile_up() {
    let mut state = GuestTaskHandleState::new();
    let counter = Arc::new(WakeCounter::default());
    let own_waker = waker(&counter);
    let mut kept = future(1);
    assert_eq!(poll(&mut kept, &mut state, &own_waker), Poll::Pending);
    for _ in 0..10 {
        let mut passing = future(1);
        assert_eq!(poll(&mut passing, &mut state, &own_waker), Poll::Pending);
        assert_eq!(poll(&mut passing, &mut state, &own_waker), Poll::Pending);
        passing.release_state(&mut state);
    }
    assert_eq!((state.active_waiters(), state.waiter_slots()), (1, 2));
}
