//! What holds of a task's waiters, whatever is done to them.

use crate::wait::{
    law_poll_keeps_wf, law_remove_keeps_wf, wake_calls, wakers_in, WaitState,
};
use crate::waker::WakerCall;
use core::task::Waker;
use vstd::prelude::*;

verus! {

/// Whether the futures that wait for one task, given by the slots that they hold,
/// and the task's state agree: each pending future owns a slot of its own, and
/// each waker that is registered is the one of a future.
pub open spec fn owned(state: WaitState, futures: Seq<Option<usize>>) -> bool {
    !state.complete ==> {
        &&& forall|j: int|
            0 <= j < futures.len() ==> (#[trigger] futures[j] matches Some(slot)
                ==> state.registered(slot))
        &&& forall|j: int, k: int|
            0 <= j < futures.len() && 0 <= k < futures.len() && j != k && #[trigger] futures[j]
                == #[trigger] futures[k] ==> futures[j] is None
        &&& forall|slot: usize| #[trigger] state.registered(slot) ==> futures.contains(Some(slot))
    }
}

/// A task that nobody waits for agrees with having no futures.
pub proof fn law_fresh_is_owned()
    ensures
        WaitState::fresh().wf(),
        owned(WaitState::fresh(), Seq::empty()),
{
}

/// One more future, which has not been polled, changes nothing.
pub proof fn law_new_future_is_owned(state: WaitState, futures: Seq<Option<usize>>)
    requires
        owned(state, futures),
    ensures
        owned(state, futures.push(None)),
{
    assert forall|slot: usize| !state.complete && #[trigger] state.registered(slot) implies futures.push(
        None,
    ).contains(Some(slot)) by {
        let k = choose|k: int| 0 <= k < futures.len() && futures[k] == Some(slot);
        assert(futures.push(None)[k] == Some(slot));
    }
}

/// Polling one of the futures keeps the agreement. The wakers of the others stay
/// where they are, and the slot of the polled future holds the waker it was polled
/// with.
pub proof fn law_poll_keeps_owned(
    state: WaitState,
    futures: Seq<Option<usize>>,
    k: int,
    waker: Waker,
    same: bool,
)
    requires
        state.wf(),
        owned(state, futures),
        0 <= k < futures.len(),
        state.polled(futures[k], waker, same).slots.len() <= usize::MAX,
    ensures
        state.accepts(futures[k]),
        owned(
            state.polled(futures[k], waker, same),
            futures.update(k, state.polled_waiter(futures[k])),
        ),
        !state.complete ==> state.polled(
            futures[k],
            waker,
            same,
        ).slots[state.polled_waiter(futures[k])->0 as int] == Some(waker),
        forall|j: int|
            0 <= j < futures.len() && j != k && !state.complete ==> (#[trigger] futures[j] matches Some(slot)
                ==> state.polled(futures[k], waker, same).slots[slot as int]
                == state.slots[slot as int]),
{
    let next = state.polled(futures[k], waker, same);
    let after = futures.update(k, state.polled_waiter(futures[k]));
    if !state.complete {
        if futures[k] is None && state.free.len() > 0 {
            let slot = state.free.last();
            assert(state.slots[slot as int] is None);
            assert(!state.registered(slot));
        } else if futures[k] is None {
            let slot = state.slots.len() as usize;
            assert(!state.registered(slot));
        }
        assert forall|j: int| 0 <= j < after.len() implies (#[trigger] after[j] matches Some(slot)
            ==> next.registered(slot)) by {
            if j != k {
                assert(after[j] == futures[j]);
            }
        }
        assert forall|j: int, l: int|
            0 <= j < after.len() && 0 <= l < after.len() && j != l && #[trigger] after[j]
                == #[trigger] after[l] implies after[j] is None by {
            if j != k {
                assert(after[j] == futures[j]);
            }
            if l != k {
                assert(after[l] == futures[l]);
            }
        }
        assert forall|slot: usize| #[trigger] next.registered(slot) implies after.contains(
            Some(slot),
        ) by {
            if after[k] != Some(slot) {
                assert(state.registered(slot));
                let j = choose|j: int| 0 <= j < futures.len() && futures[j] == Some(slot);
                assert(after[j] == Some(slot));
            }
        }
    }
}

/// Dropping one of the futures keeps the agreement, and leaves the wakers of the
/// others where they are.
pub proof fn law_release_keeps_owned(state: WaitState, futures: Seq<Option<usize>>, k: int)
    requires
        state.wf(),
        owned(state, futures),
        0 <= k < futures.len(),
        futures[k] is Some,
    ensures
        owned(state.removed(futures[k]->0), futures.update(k, None)),
        forall|j: int|
            0 <= j < futures.len() && j != k && !state.complete ==> (#[trigger] futures[j] matches Some(slot)
                ==> state.removed(futures[k]->0).slots[slot as int] == state.slots[slot as int]),
{
    let next = state.removed(futures[k]->0);
    let after = futures.update(k, None);
    if !state.complete {
        assert(state.registered(futures[k]->0));
        assert forall|j: int| 0 <= j < after.len() implies (#[trigger] after[j] matches Some(slot)
            ==> next.registered(slot)) by {
            if j != k {
                assert(after[j] == futures[j]);
            }
        }
        assert forall|j: int, l: int|
            0 <= j < after.len() && 0 <= l < after.len() && j != l && #[trigger] after[j]
                == #[trigger] after[l] implies after[j] is None by {
            if j != k && l != k {
                assert(after[j] == futures[j]);
                assert(after[l] == futures[l]);
            }
        }
        assert forall|slot: usize| #[trigger] next.registered(slot) implies after.contains(
            Some(slot),
        ) by {
            assert(state.registered(slot));
            let j = choose|j: int| 0 <= j < futures.len() && futures[j] == Some(slot);
            assert(after[j] == Some(slot));
        }
    }
}

/// Once every future is dropped, the task retains no waker.
pub proof fn law_no_stale_wakers(state: WaitState, futures: Seq<Option<usize>>)
    requires
        state.wf(),
        owned(state, futures),
        forall|j: int| 0 <= j < futures.len() ==> #[trigger] futures[j] is None,
    ensures
        wakers_in(state.slots) == Seq::<Waker>::empty(),
{
    assert forall|i: int| 0 <= i < state.slots.len() implies #[trigger] state.slots[i] is None by {
        if state.slots[i] is Some {
            assert(state.registered(i as usize));
            let j = choose|j: int| 0 <= j < futures.len() && futures[j] == Some(i as usize);
            assert(futures[j] is None);
        }
    }
    lemma_empty_slots(state.slots);
}

proof fn lemma_empty_slots(slots: Seq<Option<Waker>>)
    requires
        forall|i: int| 0 <= i < slots.len() ==> #[trigger] slots[i] is None,
    ensures
        wakers_in(slots) == Seq::<Waker>::empty(),
    decreases slots.len(),
{
    if slots.len() > 0 {
        assert(slots.last() is None);
        lemma_empty_slots(slots.drop_last());
    }
}

/// Every slot is either in use or listed as free.
pub proof fn law_slots_are_accounted_for(state: WaitState)
    requires
        state.wf(),
    ensures
        state.slots.len() == wakers_in(state.slots).len() + state.free.len(),
{
    assert(state.free.to_set() =~= unused_slots(state.slots)) by {
        assert forall|i: usize| unused_slots(state.slots).contains(i) implies state.free.to_set().contains(
        i) by {
            assert(state.slots[i as int] is None);
        }
    }
    state.free.unique_seq_to_set();
    lemma_slot_counts(state.slots);
}

spec fn used_slots(slots: Seq<Option<Waker>>) -> Set<usize> {
    Set::new(|i: usize| i < slots.len() && slots[i as int] is Some)
}

spec fn unused_slots(slots: Seq<Option<Waker>>) -> Set<usize> {
    Set::new(|i: usize| i < slots.len() && slots[i as int] is None)
}

proof fn lemma_slot_counts(slots: Seq<Option<Waker>>)
    requires
        slots.len() <= usize::MAX,
    ensures
        used_slots(slots).finite(),
        unused_slots(slots).finite(),
        wakers_in(slots).len() == used_slots(slots).len(),
        slots.len() == used_slots(slots).len() + unused_slots(slots).len(),
    decreases slots.len(),
{
    if slots.len() == 0 {
        assert(used_slots(slots) =~= Set::empty());
        assert(unused_slots(slots) =~= Set::empty());
    } else {
        let rest = slots.drop_last();
        let last = (slots.len() - 1) as usize;
        lemma_slot_counts(rest);
        if slots.last() is Some {
            assert(used_slots(slots) =~= used_slots(rest).insert(last));
            assert(unused_slots(slots) =~= unused_slots(rest));
        } else {
            assert(used_slots(slots) =~= used_slots(rest));
            assert(unused_slots(slots) =~= unused_slots(rest).insert(last));
        }
    }
}

/// There are as many slots as there were waiters at most: a poll leaves the larger of
/// the number of slots before and of the number of waiters now, and giving a slot
/// back leaves the number of slots alone.
pub proof fn law_slots_count_the_most_waiters(
    state: WaitState,
    waiter: Option<usize>,
    waker: Waker,
    same: bool,
    slot: usize,
)
    requires
        state.wf(),
        !state.complete,
        state.accepts(waiter),
        state.polled(waiter, waker, same).slots.len() <= usize::MAX,
    ensures
        ({
            let next = state.polled(waiter, waker, same);
            next.slots.len() == larger(state.slots.len(), wakers_in(next.slots).len())
        }),
        state.removed(slot).slots.len() == state.slots.len(),
        wakers_in(state.slots).len() <= state.slots.len(),
{
    law_poll_keeps_wf(state, waiter, waker, same);
    law_slots_are_accounted_for(state);
    law_slots_are_accounted_for(state.polled(waiter, waker, same));
}

/// The larger of two numbers.
pub open spec fn larger(a: nat, b: nat) -> nat {
    if a < b {
        b
    } else {
        a
    }
}

/// What a future does to the state of a task that runs.
pub enum WaitStep {
    /// It polls.
    Poll { waiter: Option<usize>, waker: Waker, same: bool },
    /// It gives its slot back.
    Release(usize),
}

/// The state after the step.
pub open spec fn after_step(state: WaitState, step: WaitStep) -> WaitState {
    match step {
        WaitStep::Poll { waiter, waker, same } => state.polled(waiter, waker, same),
        WaitStep::Release(slot) => state.removed(slot),
    }
}

/// Whether the steps can be taken one after the other.
pub open spec fn steps_possible(state: WaitState, steps: Seq<WaitStep>) -> bool
    decreases steps.len(),
{
    steps.len() == 0 || {
        &&& steps[0] matches WaitStep::Poll { waiter, .. } ==> state.accepts(waiter)
        &&& after_step(state, steps[0]).slots.len() <= usize::MAX
        &&& steps_possible(after_step(state, steps[0]), steps.drop_first())
    }
}

/// The state after all of the steps.
pub open spec fn after_steps(state: WaitState, steps: Seq<WaitStep>) -> WaitState
    decreases steps.len(),
{
    if steps.len() == 0 {
        state
    } else {
        after_steps(after_step(state, steps[0]), steps.drop_first())
    }
}

/// The most waiters that are registered at any time from the state on.
pub open spec fn most_waiters(state: WaitState, steps: Seq<WaitStep>) -> nat
    decreases steps.len(),
{
    if steps.len() == 0 {
        wakers_in(state.slots).len()
    } else {
        larger(
            wakers_in(state.slots).len(),
            most_waiters(after_step(state, steps[0]), steps.drop_first()),
        )
    }
}

/// However long futures come and go, the number of slots is the most waiters that
/// there were at one time: slots of dropped futures do not pile up.
pub proof fn law_slots_do_not_pile_up(state: WaitState, steps: Seq<WaitStep>)
    requires
        state.wf(),
        !state.complete,
        steps_possible(state, steps),
    ensures
        after_steps(state, steps).slots.len() == larger(
            state.slots.len(),
            most_waiters(state, steps),
        ),
    decreases steps.len(),
{
    law_slots_are_accounted_for(state);
    if steps.len() > 0 {
        let next = after_step(state, steps[0]);
        match steps[0] {
            WaitStep::Poll { waiter, waker, same } => {
                law_poll_keeps_wf(state, waiter, waker, same);
                law_slots_count_the_most_waiters(state, waiter, waker, same, 0);
                assert(wakers_in(next.slots).len() <= most_waiters(next, steps.drop_first()));
            },
            WaitStep::Release(slot) => {
                law_remove_keeps_wf(state, slot);
            },
        }
        law_slots_do_not_pile_up(next, steps.drop_first());
    }
}

/// A complete task stays complete: polling it, giving slots back and completing it
/// again change nothing, and there is nobody left to wake.
pub proof fn law_complete_is_final(
    state: WaitState,
    waiter: Option<usize>,
    waker: Waker,
    same: bool,
    slot: usize,
)
    requires
        state.wf(),
        state.complete,
    ensures
        state.polled(waiter, waker, same) == state,
        state.polled_waiter(waiter) is None,
        state.removed(slot) == state,
        state.completed() == state,
        wakers_in(state.slots) == Seq::<Waker>::empty(),
{
    assert(state.completed() =~= state);
}

/// Only the waker of the latest poll counts: after two polls of one future the same
/// wakers are registered in the same slots as if the second had been the only one.
pub proof fn law_latest_waker_counts(
    state: WaitState,
    waiter: Option<usize>,
    first: Waker,
    second: Waker,
    answers: (bool, bool),
)
    requires
        state.wf(),
        state.accepts(waiter),
    ensures
        ({
            let once = state.polled(waiter, second, answers.0);
            let twice = state.polled(waiter, first, answers.0).polled(
                state.polled_waiter(waiter),
                second,
                answers.1,
            );
            &&& twice.slots == once.slots
            &&& twice.free == once.free
            &&& twice.complete == once.complete
            &&& state.polled(waiter, first, answers.0).polled_waiter(state.polled_waiter(waiter))
                == state.polled_waiter(waiter)
        }),
{
    let once = state.polled(waiter, second, answers.0);
    let twice = state.polled(waiter, first, answers.0).polled(
        state.polled_waiter(waiter),
        second,
        answers.1,
    );
    assert(twice.slots =~= once.slots);
}

/// A waker is cloned to be registered, and only then: polling again with the waker
/// that is registered, and has been recognised, clones nothing.
pub proof fn law_polls_clone_sparingly(
    state: WaitState,
    waiter: Option<usize>,
    waker: Waker,
    same: bool,
)
    requires
        state.wf(),
        state.accepts(waiter),
    ensures
        state.poll_calls(waiter, waker, same).filter(|call: WakerCall| call is Cloned) == (
        if state.complete || (waiter is Some && same) {
            Seq::empty()
        } else {
            seq![WakerCall::Cloned(waker)]
        }),
        forall|k: int|
            0 <= k < state.poll_calls(waiter, waker, same).len() ==> !(#[trigger] state.poll_calls(
                waiter,
                waker,
                same,
            )[k] is Woken),
{
    reveal_with_fuel(Seq::filter, 3);
    let calls = state.poll_calls(waiter, waker, same);
    let cloned = |call: WakerCall| call is Cloned;
    if calls.len() > 0 {
        assert(calls.drop_last() =~= calls.take(calls.len() - 1));
        if calls.len() == 2 {
            assert(calls.drop_last() =~= seq![calls[0]]);
            assert(calls.drop_last().drop_last() =~= Seq::<WakerCall>::empty());
        } else {
            assert(calls.drop_last() =~= Seq::<WakerCall>::empty());
        }
    }
    assert(calls.filter(cloned) =~= if state.complete || (waiter is Some && same) {
        Seq::empty()
    } else {
        seq![WakerCall::Cloned(waker)]
    });
}

/// A slot that was given back is the next one to be handed out, and handing it out
/// adds no slot.
pub proof fn law_released_slot_is_reused(state: WaitState, slot: usize, waker: Waker, same: bool)
    requires
        state.wf(),
        !state.complete,
        state.registered(slot),
    ensures
        state.removed(slot).polled_waiter(None) == Some(slot),
        state.removed(slot).polled(None, waker, same).slots == state.slots.update(
            slot as int,
            Some(waker),
        ),
        state.removed(slot).polled(None, waker, same).free == state.free,
{
    assert(state.free.push(slot).drop_last() =~= state.free);
    assert(state.removed(slot).polled(None, waker, same).slots =~= state.slots.update(
        slot as int,
        Some(waker),
    ));
}

/// The wakers that completion hands out are those that the slots hold: one whose
/// future was dropped, or that another waker has replaced, is not among them. By
/// the time they are handed out the task is complete, none of them stays
/// registered, and none has been woken.
pub proof fn law_completion_hands_out_the_registered(state: WaitState, waker: Waker)
    ensures
        wakers_in(state.slots).contains(waker) <==> state.slots.contains(Some(waker)),
        state.completed().complete,
        state.completed().calls == state.calls,
        wakers_in(state.completed().slots) == Seq::<Waker>::empty(),
{
    lemma_wakers_in(state.slots, waker);
}

proof fn lemma_wakers_in(slots: Seq<Option<Waker>>, waker: Waker)
    ensures
        wakers_in(slots).contains(waker) <==> slots.contains(Some(waker)),
    decreases slots.len(),
{
    if slots.len() > 0 {
        let rest = slots.drop_last();
        lemma_wakers_in(rest, waker);
        let before = wakers_in(rest);
        if slots.contains(Some(waker)) {
            let i = choose|i: int| 0 <= i < slots.len() && slots[i] == Some(waker);
            if i < rest.len() {
                assert(rest[i] == Some(waker));
                let k = choose|k: int| 0 <= k < before.len() && before[k] == waker;
                assert(wakers_in(slots)[k] == waker);
            } else {
                assert(wakers_in(slots)[before.len() as int] == waker);
            }
        }
        if wakers_in(slots).contains(waker) {
            let k = choose|k: int| 0 <= k < wakers_in(slots).len() && wakers_in(slots)[k] == waker;
            if k < before.len() {
                assert(before[k] == waker);
                let i = choose|i: int| 0 <= i < rest.len() && rest[i] == Some(waker);
                assert(slots[i] == Some(waker));
            } else {
                assert(slots[slots.len() - 1] == Some(waker));
            }
        }
    }
}

/// How many of the futures hold a slot.
pub open spec fn pending_count(futures: Seq<Option<usize>>) -> nat
    decreases futures.len(),
{
    if futures.len() == 0 {
        0
    } else {
        pending_count(futures.drop_last()) + if futures.last() is Some {
            1nat
        } else {
            0nat
        }
    }
}

/// Waking what completion handed out wakes the waker of each pending future, and
/// makes as many calls as there are pending futures: one for each of them, none for
/// anybody else.
pub proof fn law_each_pending_future_is_woken_once(
    state: WaitState,
    futures: Seq<Option<usize>>,
)
    requires
        state.wf(),
        !state.complete,
        owned(state, futures),
    ensures
        wake_calls(wakers_in(state.slots)).len() == pending_count(futures),
        forall|j: int|
            0 <= j < futures.len() ==> (#[trigger] futures[j] matches Some(slot) ==> wake_calls(
                wakers_in(state.slots),
            ).contains(WakerCall::Woken(state.slots[slot as int]->0))),
{
    let held = Set::<usize>::new(|i: usize| futures.contains(Some(i)));
    assert(used_slots(state.slots) =~= held) by {
        assert forall|i: usize| held.contains(i) implies used_slots(state.slots).contains(i) by {
            let j = choose|j: int| 0 <= j < futures.len() && futures[j] == Some(i);
            assert(futures[j] == Some(i));
        }
        assert forall|i: usize| used_slots(state.slots).contains(i) implies held.contains(i) by {
            assert(state.registered(i));
        }
    }
    lemma_slot_counts(state.slots);
    lemma_held_slots(futures);
    assert forall|j: int| 0 <= j < futures.len() implies (#[trigger] futures[j] matches Some(slot)
        ==> wake_calls(wakers_in(state.slots)).contains(
        WakerCall::Woken(state.slots[slot as int]->0),
    )) by {
        if let Some(slot) = futures[j] {
            assert(state.registered(slot));
            let waker = state.slots[slot as int]->0;
            lemma_wakers_in(state.slots, waker);
            let wakers = wakers_in(state.slots);
            let k = choose|k: int| 0 <= k < wakers.len() && wakers[k] == waker;
            assert(wake_calls(wakers)[k] == WakerCall::Woken(waker));
        }
    }
}

proof fn lemma_held_slots(futures: Seq<Option<usize>>)
    requires
        forall|j: int, k: int|
            0 <= j < futures.len() && 0 <= k < futures.len() && j != k && #[trigger] futures[j]
                == #[trigger] futures[k] ==> futures[j] is None,
    ensures
        ({
            let held = Set::<usize>::new(|i: usize| futures.contains(Some(i)));
            &&& held.finite()
            &&& pending_count(futures) == held.len()
        }),
    decreases futures.len(),
{
    let held = Set::<usize>::new(|i: usize| futures.contains(Some(i)));
    if futures.len() == 0 {
        assert(held =~= Set::empty());
    } else {
        let rest = futures.drop_last();
        assert forall|j: int, k: int|
            0 <= j < rest.len() && 0 <= k < rest.len() && j != k && #[trigger] rest[j]
                == #[trigger] rest[k] implies rest[j] is None by {
            assert(futures[j] == rest[j] && futures[k] == rest[k]);
        }
        lemma_held_slots(rest);
        let held_rest = Set::<usize>::new(|i: usize| rest.contains(Some(i)));
        assert forall|i: usize| held.contains(i) implies held_rest.contains(i) || futures.last()
            == Some(i) by {
            let j = choose|j: int| 0 <= j < futures.len() && futures[j] == Some(i);
            if j < rest.len() {
                assert(rest[j] == Some(i));
            }
        }
        assert forall|i: usize| held_rest.contains(i) implies held.contains(i) && futures.last()
            != Some(i) by {
            let j = choose|j: int| 0 <= j < rest.len() && rest[j] == Some(i);
            assert(futures[j] == Some(i));
        }
        match futures.last() {
            Some(slot) => {
                assert(futures[futures.len() - 1] == Some(slot));
                assert(held =~= held_rest.insert(slot));
            },
            None => {
                assert(held =~= held_rest);
            },
        }
    }
}

} // verus!
