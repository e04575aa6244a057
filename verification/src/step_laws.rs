//! What each step does to a task, to its waiters and to a store, part by part: what
//! becomes of it, and what stays as it was. These hold of every record, sound or not.

use crate::store::{
    Arguments, ArgumentsModel, HostFuture, Progress, StoreModel, TaskModel, TaskOutcome,
};
use crate::abi::CallPlan;
use crate::ids::TaskId;
use crate::wait::{wake_calls, wakers_in, WaitState};
use crate::waker::WakerCall;
use core::task::Waker;
use vstd::prelude::*;

verus! {

/// The arguments of a call are what they hold, whole and in order.
pub proof fn law_arguments_are_what_they_hold<V, L>(values: Vec<V>, kept: L)
    ensures
        Arguments::<V, L>::Dynamic(values)@ == ArgumentsModel::<V, L>::Dynamic(values@),
        Arguments::<V, L>::Typed(kept)@ == ArgumentsModel::<V, L>::Typed(kept),
        Arguments::<V, L>::Borrowed@ == ArgumentsModel::<V, L>::Borrowed,
{
}

/// A call that was just started is queued. Its task has all of its arguments and what
/// the call was prepared with; nothing else has happened to it. When the event loop
/// comes to it, lowering begins, and the arguments have left.
pub proof fn law_started_call_is_queued<V, L, E>(args: ArgumentsModel<V, L>, plan: CallPlan)
    ensures
        TaskModel::<V, L, E>::prepared(args, plan).progress == Progress::Prepared,
        TaskModel::<V, L, E>::prepared(args, plan).args == Some(args),
        ({
            let task = TaskModel::<V, L, E>::prepared(args, plan).staged();
            &&& task.progress == Progress::Staged
            &&& task.args == Some(args)
            &&& task.plan == plan
            &&& plan.host_future_present ==> task.host_future == HostFuture::Live
            &&& !plan.host_future_present ==> task.host_future == HostFuture::NotApplicable
            &&& !task.cancel_requested
            &&& task.outcome is None
            &&& task.error is None
            &&& !task.thread_exited
            &&& !task.waiters.complete
            &&& task.waiters.slots.len() == 0
            &&& task.waiters.free.len() == 0
            &&& task.waiters.calls.len() == 0
            &&& task.begun().progress == Progress::Lowering
            &&& task.begun().args is None
        }),
{
}

/// A call that nobody interferes with runs its course: it is queued, its parameters
/// are lowered, the guest returns, and the implicit thread exits. Then the task is
/// complete, with the outcome that it returned, and was of the call's function all
/// along.
pub proof fn law_calls_run_their_course<V, L, E>(args: ArgumentsModel<V, L>, plan: CallPlan)
    ensures
        ({
            let entered = TaskModel::<V, L, E>::prepared(args, plan).staged().begun().lowered(
                Ok(()),
            );
            let done = entered.ended(TaskOutcome::Returned).exited();
            &&& entered.progress == Progress::Lowered
            &&& entered.outcome is None
            &&& !entered.thread_exited
            &&& !entered.waiters.complete
            &&& !entered.ended(TaskOutcome::Returned).waiters.complete
            &&& done.progress == Progress::Lowered
            &&& done.outcome == Some(TaskOutcome::Returned)
            &&& done.error is None
            &&& done.thread_exited
            &&& done.waiters.complete
            &&& !done.cancel_requested
            &&& done.args is None
            &&& done.plan == plan
        }),
{
}

/// Queueing moves a prepared call, whatever it was prepared with, and no other, and
/// changes nothing but its progress.
pub proof fn law_staging_only_queues<V, L, E>(task: TaskModel<V, L, E>)
    ensures
        task.progress == Progress::Prepared ==> task.staged().progress == Progress::Staged,
        task.progress != Progress::Prepared ==> task.staged().progress == task.progress,
        task.staged().args == task.args,
        task.staged().plan == task.plan,
        task.staged().host_future == task.host_future,
        task.staged().cancel_requested == task.cancel_requested,
        task.staged().outcome == task.outcome,
        task.staged().error == task.error,
        task.staged().thread_exited == task.thread_exited,
        task.staged().waiters == task.waiters,
{
}

/// When the event loop comes to a task, lowering begins if the call is queued,
/// whatever it is a call of, and nothing happens otherwise. Only the progress changes,
/// and the arguments leave.
pub proof fn law_beginning_only_hands_out_arguments<V, L, E>(task: TaskModel<V, L, E>)
    ensures
        task.progress == Progress::Staged ==> task.begun().progress == Progress::Lowering
            && task.begun().args is None,
        task.progress != Progress::Staged ==> task.begun().progress == task.progress
            && task.begun().args == task.args,
        task.begun().plan == task.plan,
        task.begun().host_future == task.host_future,
        task.begun().cancel_requested == task.cancel_requested,
        task.begun().outcome == task.outcome,
        task.begun().error == task.error,
        task.begun().thread_exited == task.thread_exited,
        task.begun().waiters == task.waiters,
{
}

/// After lowering succeeded the guest is entered, and nothing else changed. After it
/// failed the guest never is, the error is kept as it is, and the task has failed. In
/// both cases the request for cancellation, the thread, and all that the call came
/// with stay as they were.
pub proof fn law_lowering_enters_or_fails<V, L, E>(task: TaskModel<V, L, E>, error: E)
    ensures
        task.lowered(Ok(())).progress == Progress::Lowered,
        task.lowered(Ok(())).outcome == task.outcome,
        task.lowered(Ok(())).error == task.error,
        task.lowered(Ok(())).waiters == task.waiters,
        task.lowered(Err(error)).progress == Progress::NeverEntered,
        task.lowered(Err(error)).outcome == Some(TaskOutcome::Failed),
        task.lowered(Err(error)).error == Some(error),
        !task.waiters.complete ==> task.lowered(Err(error)).waiters == task.waiters.completed(),
        task.waiters.complete ==> task.lowered(Err(error)).waiters == task.waiters,
        forall|lowering: Result<(), E>| #[trigger]
            task.lowered(lowering).args == task.args && task.lowered(lowering).plan == task.plan
                && task.lowered(lowering).host_future == task.host_future && task.lowered(
                lowering,
            ).cancel_requested == task.cancel_requested && task.lowered(lowering).thread_exited
                == task.thread_exited,
{
}

/// A task that ends for its caller gets this outcome and no other. Its waiters are
/// done with exactly if the guest is never entered or its thread has exited; the
/// thread itself runs on as it did.
pub proof fn law_ending_sets_the_outcome<V, L, E>(task: TaskModel<V, L, E>, outcome: TaskOutcome)
    ensures
        task.ended(outcome).outcome == Some(outcome),
        task.ended(outcome).progress == task.progress,
        task.ended(outcome).args == task.args,
        task.ended(outcome).plan == task.plan,
        task.ended(outcome).host_future == task.host_future,
        task.ended(outcome).cancel_requested == task.cancel_requested,
        task.ended(outcome).error == task.error,
        task.ended(outcome).thread_exited == task.thread_exited,
        !task.waiters.complete && (task.progress == Progress::NeverEntered || task.thread_exited)
            ==> task.ended(outcome).waiters == task.waiters.completed(),
        task.waiters.complete || !(task.progress == Progress::NeverEntered || task.thread_exited)
            ==> task.ended(outcome).waiters == task.waiters,
{
}

/// The exit of the implicit thread is noted, and completes a task that has ended for
/// its caller. How it ended, and all else, stays as it was.
pub proof fn law_exit_ends_the_thread<V, L, E>(task: TaskModel<V, L, E>)
    ensures
        task.exited().thread_exited,
        task.exited().outcome == task.outcome,
        task.exited().progress == task.progress,
        task.exited().args == task.args,
        task.exited().plan == task.plan,
        task.exited().host_future == task.host_future,
        task.exited().cancel_requested == task.cancel_requested,
        task.exited().error == task.error,
        !task.waiters.complete && task.outcome is Some ==> task.exited().waiters
            == task.waiters.completed(),
        task.waiters.complete || task.outcome is None ==> task.exited().waiters == task.waiters,
{
}

/// It does not matter whether the guest returns first or its implicit thread exits
/// first: after both the record is the same, complete, with the result that came. Nor
/// does it matter whether the call is resolved before the exit or after.
pub proof fn law_result_and_exit_commute<V, L, E>(task: TaskModel<V, L, E>, outcome: TaskOutcome)
    requires
        !task.waiters.complete,
        task.outcome is None,
        task.progress == Progress::Lowered,
        !task.thread_exited,
    ensures
        task.ended(outcome).exited() == task.exited().ended(outcome),
        task.ended(outcome).exited().waiters.complete,
        task.ended(outcome).exited().outcome == Some(outcome),
        !task.ended(outcome).waiters.complete,
        !task.exited().waiters.complete,
        task.ended(outcome).resolved().exited() == task.ended(outcome).exited().resolved(),
        !task.ended(outcome).resolved().waiters.complete,
        !task.ended(outcome).resolved().thread_exited,
{
}

/// Picking up the result of a call takes the error of lowering out of the record, and
/// changes nothing else: the thread runs on as it did, and those who wait go on
/// waiting.
pub proof fn law_resolving_keeps_the_task<V, L, E>(task: TaskModel<V, L, E>)
    ensures
        task.resolved().error is None,
        task.resolved().thread_exited == task.thread_exited,
        task.resolved().waiters == task.waiters,
        task.resolved().progress == task.progress,
        task.resolved().outcome == task.outcome,
        task.resolved().args == task.args,
        task.resolved().plan == task.plan,
        task.resolved().host_future == task.host_future,
        task.resolved().cancel_requested == task.cancel_requested,
        task.resolved().finished() == task.finished(),
{
}

/// What a request for cancellation does. Before parameter lowering the task is
/// cancelled, never entered, without arguments, and complete. While the parameters are
/// lowered or the guest runs, and as long as there is no result, the request is noted.
/// In every other case, and of everything else, nothing changes.
pub proof fn law_cancelling<V, L, E>(task: TaskModel<V, L, E>)
    ensures
        task.progress == Progress::Prepared || task.progress == Progress::Staged ==> {
            &&& task.cancelled().progress == Progress::NeverEntered
            &&& task.cancelled().args is None
            &&& task.cancelled().outcome == Some(TaskOutcome::Cancelled)
            &&& task.cancelled().cancel_requested == task.cancel_requested
            &&& !task.waiters.complete ==> task.cancelled().waiters == task.waiters.completed()
            &&& task.waiters.complete ==> task.cancelled().waiters == task.waiters
        },
        !(task.progress == Progress::Prepared || task.progress == Progress::Staged) ==> {
            &&& task.cancelled().progress == task.progress
            &&& task.cancelled().args == task.args
            &&& task.cancelled().outcome == task.outcome
            &&& task.cancelled().waiters == task.waiters
            &&& task.cancelled().cancel_requested <==> task.cancel_requested || (task.outcome
                is None && task.progress != Progress::NeverEntered)
        },
        task.cancelled().plan == task.plan,
        task.cancelled().host_future == task.host_future,
        task.cancelled().error == task.error,
        task.cancelled().thread_exited == task.thread_exited,
{
}

/// What the end of the future that holds the arguments does. A task whose parameters
/// have not been lowered is never entered, and its arguments are gone. Of everything
/// else nothing changes, but that the future is dropped.
pub proof fn law_dropping_the_future<V, L, E>(task: TaskModel<V, L, E>)
    ensures
        task.future_dropped().host_future == HostFuture::Dropped,
        task.progress == Progress::Prepared || task.progress == Progress::Staged
            ==> task.future_dropped().progress == Progress::NeverEntered
            && task.future_dropped().args is None,
        !(task.progress == Progress::Prepared || task.progress == Progress::Staged)
            ==> task.future_dropped().progress == task.progress && task.future_dropped().args
            == task.args,
        task.future_dropped().plan == task.plan,
        task.future_dropped().outcome == task.outcome,
        task.future_dropped().error == task.error,
        task.future_dropped().cancel_requested == task.cancel_requested,
        task.future_dropped().thread_exited == task.thread_exited,
        task.future_dropped().waiters == task.waiters,
{
}

/// Polling for completion, and giving up a registration, touch the waiters of a task
/// only.
pub proof fn law_waiting_touches_waiters_only<V, L, E>(
    task: TaskModel<V, L, E>,
    waiter: Option<usize>,
    waker: Waker,
    same: bool,
    slot: usize,
)
    ensures
        task.polled(waiter, waker, same).waiters == task.waiters.polled(waiter, waker, same),
        task.polled(waiter, waker, same) == (TaskModel {
            waiters: task.polled(waiter, waker, same).waiters,
            ..task
        }),
        task.released(slot).waiters == task.waiters.removed(slot),
        task.released(slot) == (TaskModel { waiters: task.released(slot).waiters, ..task }),
{
}

/// When the guest may do what, and how far a task has come, in terms of what its
/// record holds: whatever function it runs and however it was called.
pub proof fn law_what_is_allowed_when<V, L, E>(task: TaskModel<V, L, E>)
    ensures
        task.before_lowering() <==> task.progress == Progress::Prepared || task.progress
            == Progress::Staged,
        task.may_return() <==> task.progress == Progress::Lowered && task.outcome is None,
        task.may_acknowledge() <==> task.progress == Progress::Lowered && task.outcome is None
            && task.cancel_requested,
        task.may_be_asked() <==> (task.progress == Progress::Lowering || task.progress
            == Progress::Lowered) && task.outcome is None,
        task.thread_running() <==> task.progress == Progress::Lowered && !task.thread_exited,
        task.was_removed() <==> task.progress == Progress::NeverEntered && task.outcome is None,
        task.finished() <==> task.outcome is Some && (task.progress == Progress::NeverEntered
            || task.thread_exited),
        task.may_drop_future() <==> task.host_future == HostFuture::Live && task.progress
            != Progress::Lowering,
{
}

/// What holds of a sound record: it is complete exactly when it has its result and
/// either no guest was entered or the implicit thread has exited; arguments are there
/// exactly until lowering begins; and an error of lowering belongs to a failed task.
pub proof fn law_sound_records<V, L, E>(task: TaskModel<V, L, E>)
    requires
        task.wf(),
    ensures
        task.waiters.complete <==> task.outcome is Some && (task.progress == Progress::NeverEntered
            || task.thread_exited),
        task.args is Some <==> task.progress == Progress::Prepared || task.progress
            == Progress::Staged,
        task.outcome == Some(TaskOutcome::Returned) ==> task.progress == Progress::Lowered,
        task.outcome == Some(TaskOutcome::Failed) ==> task.progress == Progress::NeverEntered,
        task.error is Some ==> task.outcome == Some(TaskOutcome::Failed),
        task.thread_exited ==> task.progress == Progress::Lowered,
        task.waiters.complete ==> task.waiters.slots.len() == 0 && task.waiters.free.len() == 0,
{
}

/// Whoever is registered is to be woken when a task becomes complete, all of them and
/// in slot order, and nobody is otherwise.
pub proof fn law_wakeups_on_completion<V, L, E>(
    task: TaskModel<V, L, E>,
    next: TaskModel<V, L, E>,
)
    ensures
        !task.waiters.complete && next.waiters.complete ==> task.wakeups(next) == wakers_in(
            task.waiters.slots,
        ),
        task.waiters.complete || !next.waiters.complete ==> task.wakeups(next).len() == 0,
{
}

/// Which wakers there are in slots: none in no slots, one more for a slot with a waker
/// behind the others, and no more for an empty one.
pub proof fn law_wakers_follow_their_slots(slots: Seq<Option<Waker>>, waker: Waker)
    ensures
        wakers_in(Seq::empty()).len() == 0,
        wakers_in(slots.push(Some(waker))) == wakers_in(slots).push(waker),
        wakers_in(slots.push(None)) == wakers_in(slots),
{
    assert(slots.push(Some(waker)).drop_last() =~= slots);
    assert(slots.push(None).drop_last() =~= slots);
}

/// Each waker is woken by one call, and the calls are made in the order of the wakers.
pub proof fn law_wake_calls_one_each(wakers: Seq<Waker>)
    ensures
        wake_calls(wakers).len() == wakers.len(),
        forall|k: int|
            0 <= k < wakers.len() ==> #[trigger] wake_calls(wakers)[k] == WakerCall::Woken(
                wakers[k],
            ),
{
}

/// The state of a new task: it runs, and nobody waits.
pub proof fn law_fresh_state()
    ensures
        !WaitState::fresh().complete,
        WaitState::fresh().slots.len() == 0,
        WaitState::fresh().free.len() == 0,
        WaitState::fresh().calls.len() == 0,
{
}

/// Completion, whoever waits: no slot is left, and no call on a waker has been made.
pub proof fn law_completing(state: WaitState)
    ensures
        state.completed().complete,
        state.completed().slots.len() == 0,
        state.completed().free.len() == 0,
        state.completed().calls == state.calls,
{
}

/// Which slot a poll leaves its future with. A complete task leaves it none. A future
/// that has a slot keeps it. One that has none gets the slot that was freed last, or
/// else the next one behind all slots.
pub proof fn law_poll_chooses_a_slot(state: WaitState, waiter: Option<usize>)
    ensures
        state.complete ==> state.polled_waiter(waiter) is None,
        !state.complete && waiter is Some ==> state.polled_waiter(waiter) == waiter,
        !state.complete && waiter is None && state.free.len() > 0 ==> state.polled_waiter(waiter)
            == Some(state.free[state.free.len() - 1]),
        !state.complete && waiter is None && state.free.len() == 0 && state.slots.len()
            <= usize::MAX ==> state.polled_waiter(waiter) is Some && state.polled_waiter(waiter)->0
            == state.slots.len(),
{
}

/// What a poll does. A complete task stays as it is. In a running one the waker of the
/// poll stands in the future's slot, every other slot holds what it held, a slot is
/// added only if none was free, and the slot that was taken leaves the free list.
pub proof fn law_poll_registers_the_waker(
    state: WaitState,
    waiter: Option<usize>,
    waker: Waker,
    same: bool,
)
    requires
        waiter matches Some(slot) ==> slot < state.slots.len(),
        state.free.len() > 0 ==> state.free[state.free.len() - 1] < state.slots.len(),
        state.slots.len() < usize::MAX,
    ensures
        state.complete ==> state.polled(waiter, waker, same) == state,
        !state.complete ==> {
            let next = state.polled(waiter, waker, same);
            let slot = state.polled_waiter(waiter)->0;
            &&& !next.complete
            &&& slot < next.slots.len()
            &&& next.slots[slot as int] == Some(waker)
            &&& forall|i: int|
                0 <= i < state.slots.len() && i != slot ==> #[trigger] next.slots[i]
                    == state.slots[i]
            &&& next.slots.len() == state.slots.len() + (if waiter is None && state.free.len()
                == 0 {
                1int
            } else {
                0
            })
            &&& next.free.len() == state.free.len() - (if waiter is None && state.free.len() > 0 {
                1int
            } else {
                0
            })
            &&& forall|k: int|
                0 <= k < next.free.len() ==> #[trigger] next.free[k] == state.free[k]
        },
{
}

/// Which calls on wakers a poll makes, behind those made before: none on a complete
/// task; a clone for a future without a slot; and for one with a slot a comparison of
/// the waker that is registered there with that of the poll, and a clone if the answer
/// is that they differ.
pub proof fn law_poll_makes_these_calls(
    state: WaitState,
    waiter: Option<usize>,
    waker: Waker,
    same: bool,
)
    ensures
        ({
            let next = state.polled(waiter, waker, same);
            let old_len = state.calls.len() as int;
            &&& forall|k: int| 0 <= k < old_len ==> #[trigger] next.calls[k] == state.calls[k]
            &&& state.complete ==> next.calls.len() == old_len
            &&& !state.complete && waiter is None ==> next.calls.len() == old_len + 1
                && next.calls[old_len] == WakerCall::Cloned(waker)
            &&& !state.complete && waiter is Some ==> {
                &&& next.calls[old_len] == WakerCall::Compared {
                    registered: state.slots[waiter->0 as int]->0,
                    other: waker,
                    same,
                }
                &&& same ==> next.calls.len() == old_len + 1
                &&& !same ==> next.calls.len() == old_len + 2 && next.calls[old_len + 1]
                    == WakerCall::Cloned(waker)
            }
        }),
{
}

/// A comparison of wakers answers that they are the same only if they are.
pub proof fn law_answers_are_honest(state: WaitState, slot: usize, waker: Waker)
    requires
        !state.complete,
        state.may_answer(Some(slot), waker, true),
    ensures
        state.slots[slot as int] == Some(waker),
{
}

/// What giving a slot back does. The slot of a registered waiter of a running task is
/// emptied and becomes the next to be handed out; every other slot, the rest of the
/// free list, and the calls on wakers stay as they were. Where no waiter is registered
/// nothing changes.
pub proof fn law_removing_a_waiter(state: WaitState, slot: usize)
    ensures
        state.complete || slot >= state.slots.len() || state.slots[slot as int] is None
            ==> state.removed(slot) == state,
        !state.complete && slot < state.slots.len() && state.slots[slot as int] is Some ==> {
            let next = state.removed(slot);
            &&& !next.complete
            &&& next.slots.len() == state.slots.len()
            &&& next.slots[slot as int] is None
            &&& forall|i: int|
                0 <= i < state.slots.len() && i != slot ==> #[trigger] next.slots[i]
                    == state.slots[i]
            &&& next.free.len() == state.free.len() + 1
            &&& next.free[state.free.len() as int] == slot
            &&& forall|k: int|
                0 <= k < state.free.len() ==> #[trigger] next.free[k] == state.free[k]
            &&& next.calls == state.calls
        },
{
}

/// What it takes for a slot to be registered, and for a future to be accepted.
pub proof fn law_registration(state: WaitState, slot: usize)
    ensures
        state.registered(slot) <==> slot < state.slots.len() && state.slots[slot as int] is Some,
        state.accepts(None),
        state.accepts(Some(slot)) <==> state.complete || (slot < state.slots.len()
            && state.slots[slot as int] is Some),
{
}

/// A store's tasks, one by one: which there are, what each identifier stands for, and
/// that exchanging or adding a record leaves everything else in its place.
pub proof fn law_stores_keep_their_tasks<V, L, E>(
    store: StoreModel<V, L, E>,
    task: TaskId,
    record: TaskModel<V, L, E>,
)
    ensures
        store.has(task) <==> task.index < store.tasks.len(),
        store.has(task) ==> store.task(task) == store.tasks[task.index as int],
        store.has(task) ==> {
            let next = store.with_task(task, record);
            &&& next.id == store.id
            &&& next.concurrency_support == store.concurrency_support
            &&& next.tasks.len() == store.tasks.len()
            &&& next.tasks[task.index as int] == record
            &&& forall|i: int|
                0 <= i < store.tasks.len() && i != task.index ==> #[trigger] next.tasks[i]
                    == store.tasks[i]
        },
        ({
            let next = store.added(record);
            &&& next.id == store.id
            &&& next.concurrency_support == store.concurrency_support
            &&& next.tasks.len() == store.tasks.len() + 1
            &&& next.tasks[store.tasks.len() as int] == record
            &&& forall|i: int|
                0 <= i < store.tasks.len() ==> #[trigger] next.tasks[i] == store.tasks[i]
        }),
        store.tasks.len() <= usize::MAX ==> store.next_task().index == store.tasks.len(),
{
}

} // verus!
