//! What holds of guest tasks and of their calls, whatever happens to them.

use crate::abi::{MAX_FLAT_PARAMS, MAX_FLAT_RESULTS, ResultLift};
use crate::call::call_result;
use crate::error::{CallError, GuestTaskCancelled};
use crate::func::{Func, TypedFunc};
use crate::ids::TaskId;
use crate::store::{ArgumentsModel, HostFuture, Progress, StoreModel, TaskModel, TaskOutcome};
use crate::task::GuestTaskHandle;
use crate::wait::wakers_in;
use crate::wait_laws::law_complete_is_final;
use core::task::Waker;
use vstd::prelude::*;

verus! {

/// What can happen to a task.
pub enum TaskEvent<E> {
    /// Its call is queued.
    Stage,
    /// The event loop comes to it.
    Begin,
    /// Lowering of its parameters ends like this.
    Lower(Result<(), E>),
    /// The guest calls `task.return`.
    Return,
    /// The guest calls `task.cancel`.
    Acknowledge,
    /// Its implicit thread exits.
    ExitThread,
    /// The host requests cancellation.
    Cancel,
    /// Its call is resolved.
    Resolve,
    /// The future that holds the arguments is dropped.
    DropFuture,
    /// A future that holds this slot, or none, polls for completion. `same` is what
    /// the comparison of wakers answers, if there is one.
    Poll { waiter: Option<usize>, waker: Waker, same: bool },
    /// A waiter slot is given back.
    Release(usize),
}

/// Whether the event can happen to the task.
pub open spec fn possible<V, L, E>(task: TaskModel<V, L, E>, event: TaskEvent<E>) -> bool {
    match event {
        TaskEvent::Stage | TaskEvent::Begin | TaskEvent::Cancel => true,
        TaskEvent::Lower(_) => task.progress == Progress::Lowering,
        TaskEvent::Return => task.may_return(),
        TaskEvent::Acknowledge => task.may_acknowledge(),
        TaskEvent::ExitThread => task.thread_running(),
        TaskEvent::Resolve => task.outcome is Some,
        TaskEvent::DropFuture => task.may_drop_future(),
        TaskEvent::Poll { waiter, waker, same } => {
            &&& task.waiters.accepts(waiter)
            &&& task.waiters.may_answer(waiter, waker, same)
            &&& task.waiters.polled(waiter, waker, same).slots.len() <= usize::MAX
        },
        TaskEvent::Release(_) => true,
    }
}

/// The task after the event.
pub open spec fn after<V, L, E>(task: TaskModel<V, L, E>, event: TaskEvent<E>) -> TaskModel<V, L, E> {
    match event {
        TaskEvent::Stage => task.staged(),
        TaskEvent::Begin => task.begun(),
        TaskEvent::Lower(lowering) => task.lowered(lowering),
        TaskEvent::Return => task.ended(TaskOutcome::Returned),
        TaskEvent::Acknowledge => task.ended(TaskOutcome::Cancelled),
        TaskEvent::ExitThread => task.exited(),
        TaskEvent::Cancel => task.cancelled(),
        TaskEvent::Resolve => task.resolved(),
        TaskEvent::DropFuture => task.future_dropped(),
        TaskEvent::Poll { waiter, waker, same } => task.polled(waiter, waker, same),
        TaskEvent::Release(slot) => task.released(slot),
    }
}

/// Every record stays sound.
pub proof fn law_events_keep_wf<V, L, E>(task: TaskModel<V, L, E>, event: TaskEvent<E>)
    requires
        task.wf(),
        possible(task, event),
    ensures
        after(task, event).wf(),
{
    match event {
        TaskEvent::Poll { waiter, waker, same } => {
            crate::wait::law_poll_keeps_wf(task.waiters, waiter, waker, same);
        },
        TaskEvent::Release(slot) => {
            crate::wait::law_remove_keeps_wf(task.waiters, slot);
        },
        _ => {},
    }
}

/// Nothing that is settled is taken back: neither how the task ended, nor that it
/// is complete, nor that lowering of its parameters began or was done, nor that it
/// never will be.
/// What the call was prepared with never changes. The error of lowering waits for
/// the call to be resolved, and the future that holds the arguments counts as there
/// until it is dropped.
pub proof fn law_settled_stays_settled<V, L, E>(task: TaskModel<V, L, E>, event: TaskEvent<E>)
    requires
        task.wf(),
        possible(task, event),
    ensures
        task.outcome is Some ==> after(task, event).outcome == task.outcome,
        task.waiters.complete ==> after(task, event).waiters == task.waiters,
        !task.before_lowering() ==> !after(task, event).before_lowering(),
        task.progress == Progress::Lowered ==> after(task, event).progress == Progress::Lowered,
        task.progress == Progress::NeverEntered ==> after(task, event).progress
            == Progress::NeverEntered,
        task.cancel_requested ==> after(task, event).cancel_requested,
        task.args is None ==> after(task, event).args is None,
        task.error is Some && !(event is Resolve) ==> after(task, event).error == task.error,
        !(event is DropFuture) ==> after(task, event).host_future == task.host_future,
        after(task, event).plan == task.plan,
{
    if task.waiters.complete {
        match event {
            TaskEvent::Poll { waiter, waker, same } => {
                law_complete_is_final(task.waiters, waiter, waker, same, 0);
            },
            _ => {},
        }
    }
}

/// Only the exit of the implicit thread ends it: no other event does, and none brings
/// it back.
pub proof fn law_only_an_exit_ends_the_thread<V, L, E>(
    task: TaskModel<V, L, E>,
    event: TaskEvent<E>,
)
    ensures
        after(task, event).thread_exited <==> task.thread_exited || event is ExitThread,
{
}

/// Which events complete a task, and when: an error of lowering; the answer of a guest
/// whose implicit thread has exited; the exit of the implicit thread of a guest that has
/// answered; and a request that comes before parameter lowering. Nothing else does, and
/// whenever a task is completed, everybody who is registered is to be woken.
pub proof fn law_what_completes_a_task<V, L, E>(task: TaskModel<V, L, E>, event: TaskEvent<E>)
    requires
        task.wf(),
        possible(task, event),
        !task.waiters.complete,
    ensures
        after(task, event).waiters.complete <==> (match event {
            TaskEvent::Lower(lowering) => lowering is Err,
            TaskEvent::Return | TaskEvent::Acknowledge => task.thread_exited,
            TaskEvent::ExitThread => task.outcome is Some,
            TaskEvent::Cancel => task.progress == Progress::Prepared || task.progress
                == Progress::Staged,
            _ => false,
        }),
        after(task, event).waiters.complete ==> task.wakeups(after(task, event)) == wakers_in(
            task.waiters.slots,
        ),
        !after(task, event).waiters.complete ==> task.wakeups(after(task, event)).len() == 0,
{
}

/// Each part of a record changes by its own events only: the outcome when the guest
/// answers, when lowering fails, or by an early request; the request by a request; the
/// error when lowering fails, or the call is resolved; the arguments when they are
/// handed out, or will never be; and the slots of waiters by a poll, when one is given
/// back, or on completion.
pub proof fn law_parts_change_by_their_events<V, L, E>(
    task: TaskModel<V, L, E>,
    event: TaskEvent<E>,
)
    requires
        task.wf(),
        possible(task, event),
    ensures
        after(task, event).outcome != task.outcome ==> (match event {
            TaskEvent::Return => after(task, event).outcome == Some(TaskOutcome::Returned),
            TaskEvent::Acknowledge => after(task, event).outcome == Some(TaskOutcome::Cancelled),
            TaskEvent::Cancel => after(task, event).outcome == Some(TaskOutcome::Cancelled),
            TaskEvent::Lower(_) => after(task, event).outcome == Some(TaskOutcome::Failed),
            _ => false,
        }),
        after(task, event).cancel_requested != task.cancel_requested ==> event is Cancel,
        after(task, event).error != task.error ==> (match event {
            TaskEvent::Lower(Err(error)) => after(task, event).error == Some(error),
            TaskEvent::Resolve => after(task, event).error is None,
            _ => false,
        }),
        after(task, event).args != task.args ==> after(task, event).args is None && (event is Begin
            || event is Cancel || event is DropFuture),
        after(task, event).progress != task.progress ==> (match event {
            TaskEvent::Stage => after(task, event).progress == Progress::Staged,
            TaskEvent::Begin => after(task, event).progress == Progress::Lowering,
            TaskEvent::Lower(Ok(())) => after(task, event).progress == Progress::Lowered,
            TaskEvent::Lower(Err(_)) | TaskEvent::Cancel | TaskEvent::DropFuture => after(
                task,
                event,
            ).progress == Progress::NeverEntered,
            _ => false,
        }),
        after(task, event).waiters.slots != task.waiters.slots ==> event is Poll || event is Release
            || after(task, event).waiters.complete,
{
}

/// Whether the events can happen to the task one after the other.
pub open spec fn all_possible<V, L, E>(task: TaskModel<V, L, E>, events: Seq<TaskEvent<E>>) -> bool
    decreases events.len(),
{
    events.len() == 0 || (possible(task, events[0]) && all_possible(
        after(task, events[0]),
        events.drop_first(),
    ))
}

/// The task after all of the events.
pub open spec fn after_all<V, L, E>(task: TaskModel<V, L, E>, events: Seq<TaskEvent<E>>) -> TaskModel<V, L, E>
    decreases events.len(),
{
    if events.len() == 0 {
        task
    } else {
        after_all(after(task, events[0]), events.drop_first())
    }
}

/// However long a task is watched, its record stays sound, and nothing that is
/// settled is taken back.
pub proof fn law_settled_forever<V, L, E>(task: TaskModel<V, L, E>, events: Seq<TaskEvent<E>>)
    requires
        task.wf(),
        all_possible(task, events),
    ensures
        after_all(task, events).wf(),
        task.outcome is Some ==> after_all(task, events).outcome == task.outcome,
        task.waiters.complete ==> after_all(task, events).waiters == task.waiters,
        !task.before_lowering() ==> !after_all(task, events).before_lowering(),
        task.progress == Progress::Lowered ==> after_all(task, events).progress
            == Progress::Lowered,
        task.progress == Progress::NeverEntered ==> after_all(task, events).progress
            == Progress::NeverEntered,
        task.cancel_requested ==> after_all(task, events).cancel_requested,
        task.args is None ==> after_all(task, events).args is None,
        after_all(task, events).plan == task.plan,
    decreases events.len(),
{
    if events.len() > 0 {
        law_events_keep_wf(task, events[0]);
        law_settled_stays_settled(task, events[0]);
        law_settled_forever(after(task, events[0]), events.drop_first());
    }
}

/// A task that was cancelled before parameter lowering, or whose arguments were
/// dropped before that, is never entered, whatever happens later: the event loop
/// passes it over.
pub proof fn law_never_entered<V, L, E>(task: TaskModel<V, L, E>, events: Seq<TaskEvent<E>>)
    requires
        task.wf(),
        task.before_lowering(),
    ensures
        all_possible(task.cancelled(), events) ==> {
            let later = after_all(task.cancelled(), events);
            &&& later.begun() == later
            &&& later.outcome == Some(TaskOutcome::Cancelled)
            &&& later.waiters.complete
        },
        task.may_drop_future() && all_possible(task.future_dropped(), events) ==> {
            let later = after_all(task.future_dropped(), events);
            &&& later.begun() == later
            &&& later.args is None
        },
{
    if all_possible(task.cancelled(), events) {
        law_events_keep_wf(task, TaskEvent::Cancel);
        law_settled_forever(task.cancelled(), events);
    }
    if task.may_drop_future() && all_possible(task.future_dropped(), events) {
        law_events_keep_wf(task, TaskEvent::DropFuture);
        law_settled_forever(task.future_dropped(), events);
    }
}

/// A task is complete exactly when it has its terminal result and no implicit
/// thread of it runs: a future that waits for it is ready then and only then.
pub proof fn law_done_means_result_and_exit<V, L, E>(task: TaskModel<V, L, E>)
    requires
        task.wf(),
    ensures
        task.waiters.complete <==> task.outcome is Some && !task.thread_running(),
{
}

/// The call may have its result while the task is not complete: as long as the
/// implicit thread runs on, it is not.
pub proof fn law_result_may_come_before_completion<V, L, E>(
    task: TaskModel<V, L, E>,
    outcome: TaskOutcome,
)
    requires
        task.wf(),
        task.may_return(),
        task.thread_running(),
    ensures
        task.ended(outcome).outcome == Some(outcome),
        !task.ended(outcome).waiters.complete,
        task.ended(outcome).exited().waiters.complete,
{
}

/// A request that comes before parameter lowering ends the task at once: it is
/// complete, everybody who waits is to be woken, the call returns the typed error, and
/// the event loop will never lower the parameters or enter the guest.
pub proof fn law_cancel_before_lowering<V, L, E, R>(
    task: TaskModel<V, L, E>,
    lifted: Option<Result<R, E>>,
)
    requires
        task.wf(),
        task.before_lowering(),
    ensures
        task.cancelled().outcome == Some(TaskOutcome::Cancelled),
        task.cancelled().waiters == task.waiters.completed(),
        task.wakeups(task.cancelled()) == wakers_in(task.waiters.slots),
        call_result(task.cancelled().outcome->0, lifted, task.cancelled().error) == Err::<
            R,
            CallError<E>,
        >(CallError::Cancelled(GuestTaskCancelled)),
        task.cancelled().args is None,
        task.cancelled().begun() == task.cancelled(),
        !task.cancelled().may_return(),
{
}

/// A request that comes after parameter lowering began decides nothing: it is noted
/// if the task has no result yet, and changes nothing else.
pub proof fn law_cancel_is_cooperative<V, L, E>(task: TaskModel<V, L, E>)
    requires
        task.wf(),
        task.progress == Progress::Lowering || task.progress == Progress::Lowered,
    ensures
        task.cancelled() == (TaskModel {
            cancel_requested: task.cancel_requested || task.outcome is None,
            ..task
        }),
{
}

/// An error of lowering is what the call returns, whatever was requested meanwhile.
/// The guest is not entered, and the task is complete: everybody who waits is to be
/// woken. Once the parameters have been lowered, the guest is entered and runs.
pub proof fn law_lowering_error_is_the_calls_error<V, L, E, R>(
    task: TaskModel<V, L, E>,
    error: E,
    lifted: Option<Result<R, E>>,
)
    requires
        task.wf(),
        task.progress == Progress::Lowering,
    ensures
        call_result(
            task.lowered(Err(error)).outcome->0,
            lifted,
            task.lowered(Err(error)).error,
        ) == Err::<R, CallError<E>>(CallError::Runtime(error)),
        task.cancelled().lowered(Err(error)).outcome == task.lowered(Err(error)).outcome,
        task.cancelled().lowered(Err(error)).error == task.lowered(Err(error)).error,
        task.lowered(Err(error)).waiters == task.waiters.completed(),
        task.wakeups(task.lowered(Err(error))) == wakers_in(task.waiters.slots),
        !task.lowered(Err(error)).may_return(),
        !task.lowered(Err(error)).thread_running(),
        task.lowered(Ok(())).may_return(),
        task.lowered(Ok(())).thread_running(),
{
}

/// A guest that was asked to cancel may return its result instead, which is then
/// what the call returns, or acknowledge the request, and then the call returns the
/// typed error. A guest that was not asked cannot acknowledge.
pub proof fn law_guest_decides<V, L, E, R>(task: TaskModel<V, L, E>, lifted: Result<R, E>)
    requires
        task.wf(),
        task.may_return(),
    ensures
        task.cancelled().may_return(),
        task.cancelled().may_acknowledge(),
        task.may_acknowledge() <==> task.cancel_requested,
        call_result(
            task.cancelled().ended(TaskOutcome::Returned).outcome->0,
            Some(lifted),
            None,
        ) == (match lifted {
            Ok(result) => Ok::<R, CallError<E>>(result),
            Err(error) => Err(CallError::Runtime(error)),
        }),
        call_result(
            task.cancelled().ended(TaskOutcome::Cancelled).outcome->0,
            Some(lifted),
            None,
        ) == Err::<R, CallError<E>>(CallError::Cancelled(GuestTaskCancelled)),
{
}

/// Requesting cancellation of a complete task does nothing, and a second request
/// does nothing that the first has not done.
pub proof fn law_cancel_again_is_noop<V, L, E>(task: TaskModel<V, L, E>)
    requires
        task.wf(),
    ensures
        task.waiters.complete ==> task.cancelled() == task && !task.was_removed(),
        task.cancelled().cancelled() == task.cancelled(),
{
}

/// The waiters of a task are to be woken when it becomes complete, and at no other
/// time, and that happens at most once. Apart from that the only calls on wakers are
/// those of a poll.
pub proof fn law_waiters_wake_on_completion<V, L, E>(task: TaskModel<V, L, E>, event: TaskEvent<E>)
    requires
        task.wf(),
        possible(task, event),
    ensures
        task.wakeups(after(task, event)) == (if after(task, event).waiters.complete {
            wakers_in(task.waiters.slots)
        } else {
            Seq::empty()
        }),
        after(task, event).waiters.complete ==> wakers_in(after(task, event).waiters.slots)
            == Seq::<Waker>::empty(),
        after(task, event).waiters.calls == (match event {
            TaskEvent::Poll { waiter, waker, same } => task.waiters.calls
                + task.waiters.poll_calls(waiter, waker, same),
            _ => task.waiters.calls,
        }),
{
    law_events_keep_wf(task, event);
}

/// Unless it polls itself, or its slot is given back, a future keeps its
/// registration: its waker stays in its slot, or it is void since the task is
/// complete.
pub proof fn law_registrations_survive<V, L, E>(
    task: TaskModel<V, L, E>,
    event: TaskEvent<E>,
    waiter: usize,
)
    requires
        task.wf(),
        possible(task, event),
        task.waiters.accepts(Some(waiter)),
        event matches TaskEvent::Poll { waiter: polling, .. } ==> polling != Some(waiter),
        event != TaskEvent::<E>::Release(waiter),
    ensures
        after(task, event).waiters.accepts(Some(waiter)),
        !after(task, event).waiters.complete ==> after(task, event).waiters.slots[waiter as int]
            == task.waiters.slots[waiter as int],
{
    if let TaskEvent::Poll { waiter: None, .. } = event {
        if !task.waiters.complete && task.waiters.free.len() > 0 {
            let slot = task.waiters.free.last();
            assert(task.waiters.slots[slot as int] is None);
        }
    }
}

/// The arguments are handed out for lowering once at most: the event loop gets them
/// when it comes to a queued call, and they are gone from then on.
pub proof fn law_arguments_leave_once<V, L, E>(task: TaskModel<V, L, E>)
    requires
        task.wf(),
    ensures
        task.begun() != task ==> task.args is Some && task.progress == Progress::Staged,
        task.begun().args is None <==> task.progress != Progress::Prepared,
        task.begun().begun() == task.begun(),
{
}

/// Arguments that stand in a future are read only while that future is there: when
/// they are handed out, and as long as they are being lowered. The future cannot be
/// dropped in between. Once it is dropped, a call that had not begun never will.
pub proof fn law_borrowed_arguments_are_live<V, L, E>(task: TaskModel<V, L, E>)
    requires
        task.wf(),
        task.plan.host_future_present,
    ensures
        task.args is Some ==> task.host_future == HostFuture::Live,
        task.progress == Progress::Lowering ==> task.host_future == HostFuture::Live,
        task.progress == Progress::Lowering ==> !possible(task, TaskEvent::DropFuture),
        task.may_drop_future() ==> {
            &&& task.future_dropped().args is None
            &&& task.future_dropped().progress != Progress::Lowering
            &&& task.future_dropped().begun() == task.future_dropped()
            &&& task.before_lowering() ==> task.future_dropped().was_removed()
            &&& !task.before_lowering() ==> task.future_dropped() == (TaskModel {
                host_future: HostFuture::Dropped,
                ..task
            })
        },
{
}

/// The future of a call is dropped once at most, and whatever happens after that, the
/// arguments are not read: they are neither handed out nor being lowered.
pub proof fn law_dropped_arguments_are_never_read<V, L, E>(
    task: TaskModel<V, L, E>,
    events: Seq<TaskEvent<E>>,
)
    requires
        task.wf(),
        task.may_drop_future(),
        all_possible(task.future_dropped(), events),
    ensures
        ({
            let later = after_all(task.future_dropped(), events);
            &&& later.host_future == HostFuture::Dropped
            &&& !possible(later, TaskEvent::DropFuture)
            &&& later.args is None
            &&& later.progress != Progress::Lowering
        }),
{
    law_events_keep_wf(task, TaskEvent::DropFuture);
    lemma_dropped_stays_dropped(task.future_dropped(), events);
    law_settled_forever(task.future_dropped(), events);
}

proof fn lemma_dropped_stays_dropped<V, L, E>(
    task: TaskModel<V, L, E>,
    events: Seq<TaskEvent<E>>,
)
    requires
        task.wf(),
        task.host_future == HostFuture::Dropped,
        all_possible(task, events),
    ensures
        after_all(task, events).host_future == HostFuture::Dropped,
    decreases events.len(),
{
    if events.len() > 0 {
        law_events_keep_wf(task, events[0]);
        law_settled_stays_settled(task, events[0]);
        lemma_dropped_stays_dropped(after(task, events[0]), events.drop_first());
    }
}

/// Dropping what a concurrent call returned does not touch the task: the arguments
/// moved into the task, and there is no future whose end would matter.
pub proof fn law_dropped_calls_run_on<V, L, E, P, R>(
    func: TypedFunc<P, R>,
    task: TaskModel<V, L, E>,
)
    requires
        task.wf(),
        task.plan == func.func.dynamic_plan() || task.plan == func.plan(false),
    ensures
        !possible(task, TaskEvent::DropFuture),
        task.host_future == HostFuture::NotApplicable,
{
}

/// What happens to one task leaves the others, and the store itself, as they are,
/// and no task ever leaves a store.
pub proof fn law_tasks_are_independent<V, L, E>(
    store: StoreModel<V, L, E>,
    task: TaskId,
    record: TaskModel<V, L, E>,
    other: TaskId,
)
    requires
        store.has(task),
        store.has(other),
        other != task,
    ensures
        store.with_task(task, record).has(other),
        store.with_task(task, record).task(other) == store.task(other),
        store.with_task(task, record).task(task) == record,
        store.with_task(task, record).id == store.id,
        store.added(record).has(other),
        store.added(record).task(other) == store.task(other),
{
}

/// A handle stays good for its store, and the task of a new call is one that no
/// handle has been given out for.
pub proof fn law_handles_stay_good<V, L, E>(
    store: StoreModel<V, L, E>,
    handle: GuestTaskHandle,
    task: TaskId,
    record: TaskModel<V, L, E>,
)
    requires
        handle.belongs_to(store),
        store.tasks.len() < usize::MAX,
    ensures
        store.has(task) ==> handle.belongs_to(store.with_task(task, record)),
        handle.belongs_to(store.added(record)),
        handle.task != store.next_task(),
        store.added(record).has(store.next_task()),
        store.added(record).task(store.next_task()) == record,
{
}

/// Tasks with the same diagnostic identifier are the same task.
pub proof fn law_diagnostic_ids_are_unique(first: TaskId, second: TaskId)
    ensures
        first.guest_task_id() == second.guest_task_id() <==> first == second,
{
}

/// A call never passes more core parameters than the canonical ABI allows, and the
/// results that it lifts from the stack are never more than that limit, or, for an
/// export without the async ABI, more than one.
pub proof fn law_plans_respect_the_abi<P, R>(func: TypedFunc<P, R>, host_future_present: bool)
    ensures
        func.plan(host_future_present).param_count <= MAX_FLAT_PARAMS,
        func.func.dynamic_plan().param_count <= MAX_FLAT_PARAMS,
        func.plan(host_future_present).lift matches ResultLift::Stack { count } ==> count
            == func.result_flat && count <= MAX_FLAT_PARAMS && (!func.func.async_ ==> count
            <= MAX_FLAT_RESULTS),
        func.plan(host_future_present).lift == ResultLift::Heap <==> func.result_flat > (
        if func.func.async_ {
            MAX_FLAT_PARAMS
        } else {
            MAX_FLAT_RESULTS
        }),
{
}

/// No call starts in a store without support for concurrency.
pub proof fn law_no_call_without_concurrency<V, L, E>(
    func: Func,
    store: StoreModel<V, L, E>,
    params: nat,
    results: nat,
)
    requires
        !store.concurrency_support,
    ensures
        func.start_error(store, params, results) is Some,
{
}

} // verus!
