//! The completion state of one guest task, and the waiters registered with it.

use crate::waker::{clone_waker, wake, will_wake, WakerCall, WakerLog};
use core::task::Waker;
use vstd::prelude::*;

verus! {

/// The answer of a poll.
#[derive(Debug, PartialEq, Eq)]
pub enum Poll<T> {
    /// The value is there.
    Ready(T),
    /// The value is not there yet, and the caller's waker has been registered.
    Pending,
}

/// What a [`GuestTaskHandleState`] holds, as mathematical values.
#[verifier::ext_equal]
pub struct WaitState {
    /// Whether the task is complete.
    pub complete: bool,
    /// The waiter slots: the waker of each registered waiter, or `None` in a slot
    /// that nobody uses. A complete task has no slots.
    pub slots: Seq<Option<Waker>>,
    /// The slots that nobody uses; the last one is the next to be handed out.
    pub free: Seq<usize>,
    /// The calls that were made on wakers while the state was in use, oldest first.
    pub calls: Seq<WakerCall>,
}

impl WaitState {
    /// The free list names each unused slot exactly once, and nothing else.
    pub open spec fn wf(self) -> bool {
        &&& self.complete ==> self.slots.len() == 0 && self.free.len() == 0
        &&& self.free.no_duplicates()
        &&& forall|k: int|
            0 <= k < self.free.len() ==> #[trigger] self.free[k] < self.slots.len()
                && self.slots[self.free[k] as int] is None
        &&& forall|i: int|
            0 <= i < self.slots.len() && #[trigger] self.slots[i] is None ==> self.free.contains(
                i as usize,
            )
        &&& self.slots.len() <= usize::MAX
    }

    /// The state of a task that nobody waits for yet.
    pub open spec fn fresh() -> WaitState {
        WaitState { complete: false, slots: Seq::empty(), free: Seq::empty(), calls: Seq::empty() }
    }

    /// Whether the slot holds the waker of a registered waiter.
    pub open spec fn registered(self, slot: usize) -> bool {
        slot < self.slots.len() && self.slots[slot as int] is Some
    }

    /// Whether a future with this registration may poll: it has none, or the one
    /// it has is active. After completion every registration is void.
    pub open spec fn accepts(self, waiter: Option<usize>) -> bool {
        !self.complete ==> (waiter matches Some(slot) ==> self.registered(slot))
    }

    /// The slot that a future holds after a poll: none once the task is complete,
    /// otherwise the one it had, or else the slot that was freed last, or else a
    /// new slot behind the others.
    pub open spec fn polled_waiter(self, waiter: Option<usize>) -> Option<usize> {
        if self.complete {
            None
        } else if waiter is Some {
            waiter
        } else if self.free.len() > 0 {
            Some(self.free.last())
        } else {
            Some(self.slots.len() as usize)
        }
    }

    /// Whether a waker can have answered `same`, when it was asked on a poll whether
    /// it wakes the same task: `true` only if it does. Where nothing is asked, any
    /// answer will do.
    pub open spec fn may_answer(self, waiter: Option<usize>, waker: Waker, same: bool) -> bool {
        same && !self.complete ==> (waiter matches Some(slot) ==> self.slots[slot as int] == Some(
            waker,
        ))
    }

    /// The calls on wakers that a poll makes. The waker of a future that has a slot
    /// is compared with the one in the slot, and cloned only if they differ. The
    /// waker of a future that gets a slot is cloned. No waker is woken.
    pub open spec fn poll_calls(self, waiter: Option<usize>, waker: Waker, same: bool) -> Seq<
        WakerCall,
    > {
        if self.complete {
            Seq::empty()
        } else if let Some(slot) = waiter {
            let compared = WakerCall::Compared {
                registered: self.slots[slot as int]->0,
                other: waker,
                same,
            };
            if same {
                seq![compared]
            } else {
                seq![compared, WakerCall::Cloned(waker)]
            }
        } else {
            seq![WakerCall::Cloned(waker)]
        }
    }

    /// The state after a future with this registration polled with this waker:
    /// the waker stands in the future's slot, and no other slot changed. `same` is
    /// what the comparison of wakers answered, if there was one.
    pub open spec fn polled(self, waiter: Option<usize>, waker: Waker, same: bool) -> WaitState {
        let calls = self.calls + self.poll_calls(waiter, waker, same);
        if self.complete {
            self
        } else if let Some(slot) = waiter {
            WaitState { slots: self.slots.update(slot as int, Some(waker)), calls, ..self }
        } else if self.free.len() > 0 {
            WaitState {
                slots: self.slots.update(self.free.last() as int, Some(waker)),
                free: self.free.drop_last(),
                calls,
                ..self
            }
        } else {
            WaitState { slots: self.slots.push(Some(waker)), calls, ..self }
        }
    }

    /// The state after the slot was given back.
    pub open spec fn removed(self, slot: usize) -> WaitState {
        if !self.complete && self.registered(slot) {
            WaitState {
                slots: self.slots.update(slot as int, None),
                free: self.free.push(slot),
                ..self
            }
        } else {
            self
        }
    }

    /// The state after completion: nothing stays registered. No call on a waker is
    /// made; the wakers that were registered are still to be woken.
    pub open spec fn completed(self) -> WaitState {
        WaitState { complete: true, slots: Seq::empty(), free: Seq::empty(), calls: self.calls }
    }
}

/// The wakers that the slots hold, in slot order.
pub open spec fn wakers_in(slots: Seq<Option<Waker>>) -> Seq<Waker>
    decreases slots.len(),
{
    if slots.len() == 0 {
        Seq::empty()
    } else {
        match slots.last() {
            Some(waker) => wakers_in(slots.drop_last()).push(waker),
            None => wakers_in(slots.drop_last()),
        }
    }
}

/// The wakers of a task that has completed. They were taken out of its state, and
/// are woken when nobody holds the state any more: a waker may reach for it.
#[must_use]
#[derive(Debug)]
pub struct Wakeups {
    slots: Vec<Option<Waker>>,
}

impl View for Wakeups {
    type V = Seq<Waker>;

    closed spec fn view(&self) -> Seq<Waker> {
        wakers_in(self.slots@)
    }
}

/// The calls that wake each of the wakers once, in order.
pub open spec fn wake_calls(wakers: Seq<Waker>) -> Seq<WakerCall> {
    wakers.map_values(|waker: Waker| WakerCall::Woken(waker))
}

impl Wakeups {
    /// Nobody to wake.
    pub fn none() -> (wakeups: Wakeups)
        ensures
            wakeups@ == Seq::<Waker>::empty(),
    {
        Wakeups { slots: Vec::new() }
    }

    /// Wakes each of the wakers once, in order.
    pub fn wake_all(self, log: &mut WakerLog)
        ensures
            final(log)@ == old(log)@ + wake_calls(self@),
    {
        let slots = self.slots;
        let ghost all = slots@;
        for slot in it: slots
            invariant
                it.seq() == all,
                log@ == old(log)@ + wake_calls(wakers_in(all.take(it.index() as int))),
        {
            proof {
                assert(all.take(it.index() + 1).drop_last() =~= all.take(it.index() as int));
            }
            if let Some(waker) = slot {
                wake(waker, log);
                assert(log@ =~= old(log)@ + wake_calls(
                    wakers_in(all.take(it.index() as int)).push(waker),
                ));
            }
        }
        assert(all.take(all.len() as int) =~= all);
    }
}

/// Polling keeps the free list exact, as long as the slots can be counted.
pub proof fn law_poll_keeps_wf(
    state: WaitState,
    waiter: Option<usize>,
    waker: Waker,
    same: bool,
)
    requires
        state.wf(),
        state.accepts(waiter),
        state.polled(waiter, waker, same).slots.len() <= usize::MAX,
    ensures
        state.polled(waiter, waker, same).wf(),
{
    let next = state.polled(waiter, waker, same);
    if !state.complete && waiter is None && state.free.len() > 0 {
        let slot = state.free.last();
        assert(state.slots[slot as int] is None);
        assert forall|i: int|
            0 <= i < next.slots.len() && #[trigger] next.slots[i] is None implies next.free.contains(
            i as usize,
        ) by {
            assert(state.slots[i] is None);
            let k = choose|k: int| 0 <= k < state.free.len() && state.free[k] == i as usize;
            assert(next.free[k] == i as usize);
        }
    }
}

/// Giving a slot back keeps the free list exact.
pub proof fn law_remove_keeps_wf(state: WaitState, slot: usize)
    requires
        state.wf(),
    ensures
        state.removed(slot).wf(),
{
    let next = state.removed(slot);
    if !state.complete && state.registered(slot) {
        assert forall|i: int|
            0 <= i < next.slots.len() && #[trigger] next.slots[i] is None implies next.free.contains(
            i as usize,
        ) by {
            if i == slot {
                assert(next.free[state.free.len() as int] == slot);
            } else {
                assert(state.slots[i] is None);
                let k = choose|k: int| 0 <= k < state.free.len() && state.free[k] == i as usize;
                assert(next.free[k] == i as usize);
            }
        }
    }
}

/// The two states of a task, as its waiters see it.
enum GuestTaskState {
    /// The task has not completed. `free_waiters` lists the slots of `waiters`
    /// that hold no waker.
    Running { waiters: Vec<Option<Waker>>, free_waiters: Vec<usize> },
    /// The task has produced its result, and its implicit thread has exited.
    Complete,
}

/// The completion state that a task's handles and waiting futures share.
pub struct GuestTaskHandleState {
    state: GuestTaskState,
    log: WakerLog,
}

impl View for GuestTaskHandleState {
    type V = WaitState;

    closed spec fn view(&self) -> WaitState {
        match self.state {
            GuestTaskState::Running { waiters, free_waiters } => WaitState {
                complete: false,
                slots: waiters@,
                free: free_waiters@,
                calls: self.log@,
            },
            GuestTaskState::Complete => WaitState {
                complete: true,
                slots: Seq::empty(),
                free: Seq::empty(),
                calls: self.log@,
            },
        }
    }
}

impl GuestTaskHandleState {
    /// The state of a task that runs and that nobody waits for.
    pub fn new() -> (state: GuestTaskHandleState)
        ensures
            state@ == WaitState::fresh(),
            state@.wf(),
    {
        GuestTaskHandleState {
            state: GuestTaskState::Running { waiters: Vec::new(), free_waiters: Vec::new() },
            log: WakerLog::new(),
        }
    }

    /// Whether the task is complete.
    pub fn is_complete(&self) -> (complete: bool)
        ensures
            complete == self@.complete,
    {
        matches!(&self.state, GuestTaskState::Complete)
    }

    /// Polls for completion on behalf of a future that holds the slot `waiter`, or
    /// none yet. While the task runs, `waker` is registered in that slot, or in
    /// one that is taken for it. Once the task is complete the future gives up its
    /// registration and is ready.
    pub fn poll_complete(&mut self, waiter: &mut Option<usize>, waker: &Waker) -> (poll: Poll<()>)
        requires
            old(self)@.wf(),
            old(self)@.accepts(*old(waiter)),
        ensures
            exists|same: bool| #[trigger]
                old(self)@.may_answer(*old(waiter), *waker, same) && final(self)@
                    == old(self)@.polled(*old(waiter), *waker, same),
            *final(waiter) == old(self)@.polled_waiter(*old(waiter)),
            poll == (if old(self)@.complete { Poll::Ready(()) } else { Poll::Pending }),
            final(self)@.wf(),
    {
        let ghost before = self@;
        let ghost waiter_before = *waiter;
        match &mut self.state {
            GuestTaskState::Running { waiters, free_waiters } => {
                let ghost mut answer = false;
                match *waiter {
                    Some(index) => {
                        if let Some(registered) = &mut waiters[index] {
                            let same = will_wake(registered, waker, &mut self.log);
                            proof {
                                answer = same;
                            }
                            if !same {
                                *registered = clone_waker(waker, &mut self.log);
                            }
                        }
                    },
                    None => {
                        let index: usize = match free_waiters.pop() {
                            Some(index) => {
                                waiters[index] = Some(clone_waker(waker, &mut self.log));
                                index
                            },
                            None => {
                                waiters.push(Some(clone_waker(waker, &mut self.log)));
                                waiters.len() - 1
                            },
                        };
                        *waiter = Some(index);
                    },
                }
                proof {
                    law_poll_keeps_wf(before, waiter_before, *waker, answer);
                    assert(before.may_answer(waiter_before, *waker, answer));
                    assert(self@ =~= before.polled(waiter_before, *waker, answer));
                }
                Poll::Pending
            },
            GuestTaskState::Complete => {
                *waiter = None;
                assert(before.may_answer(waiter_before, *waker, false));
                Poll::Ready(())
            },
        }
    }

    /// Gives back the slot of a future that no longer waits: its waker is dropped
    /// without being woken, and the slot may be handed out again. A slot that
    /// holds no waker, or a task that is complete, stays as it is.
    pub fn remove_waiter(&mut self, waiter: usize)
        requires
            old(self)@.wf(),
            !old(self)@.complete ==> waiter < old(self)@.slots.len(),
        ensures
            final(self)@ == old(self)@.removed(waiter),
            final(self)@.wf(),
    {
        let ghost before = self@;
        match &mut self.state {
            GuestTaskState::Running { waiters, free_waiters } => {
                let slot = &mut waiters[waiter];
                if slot.take().is_some() {
                    free_waiters.push(waiter);
                }
                proof {
                    law_remove_keeps_wf(before, waiter);
                }
            },
            GuestTaskState::Complete => {},
        }
    }

    /// Completes the task, and hands out the wakers of the registered waiters, in
    /// slot order, for the caller to wake once it has let go of the state. On a
    /// complete task it does nothing, and there is nobody to wake.
    pub fn complete(&mut self) -> (wakeups: Wakeups)
        requires
            old(self)@.wf(),
        ensures
            wakeups@ == wakers_in(old(self)@.slots),
            final(self)@ == old(self)@.completed(),
            final(self)@.wf(),
    {
        let mut state = GuestTaskState::Complete;
        core::mem::swap(&mut self.state, &mut state);
        match state {
            GuestTaskState::Running { waiters, .. } => Wakeups { slots: waiters },
            GuestTaskState::Complete => Wakeups::none(),
        }
    }

    /// How many waiters are registered.
    pub fn active_waiters(&self) -> (count: usize)
        ensures
            count == wakers_in(self@.slots).len(),
    {
        match &self.state {
            GuestTaskState::Running { waiters, .. } => {
                let mut count: usize = 0;
                let mut i: usize = 0;
                while i < waiters.len()
                    invariant
                        i <= waiters@.len(),
                        count <= i,
                        count == wakers_in(waiters@.take(i as int)).len(),
                    decreases waiters@.len() - i,
                {
                    assert(waiters@.take(i + 1).drop_last() =~= waiters@.take(i as int));
                    if waiters[i].is_some() {
                        count = count + 1;
                    }
                    i = i + 1;
                }
                assert(waiters@.take(waiters@.len() as int) =~= waiters@);
                count
            },
            GuestTaskState::Complete => 0,
        }
    }

    /// How many waiter slots there are, used or not.
    pub fn waiter_slots(&self) -> (count: usize)
        ensures
            count == self@.slots.len(),
    {
        match &self.state {
            GuestTaskState::Running { waiters, .. } => waiters.len(),
            GuestTaskState::Complete => 0,
        }
    }

    /// Whether a future that holds the slot `waiter`, or none, may poll.
    pub fn accepts(&self, waiter: Option<usize>) -> (accepted: bool)
        ensures
            accepted == self@.accepts(waiter),
    {
        match (&self.state, waiter) {
            (GuestTaskState::Running { waiters, .. }, Some(slot)) => {
                slot < waiters.len() && waiters[slot].is_some()
            },
            _ => true,
        }
    }
}

} // verus!
