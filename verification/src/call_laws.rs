//! What a caller gets: which calls start and with what, and what they return.

use crate::abi::{
    spec_flat_param_count, spec_max_flat_results, ResultLift, MAX_FLAT_PARAMS, MAX_FLAT_RESULTS,
};
use crate::call::{all_lifted, StagedCall};
use crate::error::{CallError, GuestTaskCancelled};
use crate::func::{clones, AsyncCall, Func, TypedFunc};
use crate::ids::TaskId;
use crate::store::{ArgumentsModel, HostFuture, Progress, StoreModel, TaskModel, TaskOutcome};
use crate::task::{GuestTaskHandle, TaskDone};
use vstd::prelude::*;

verus! {

/// A call is one of the function that it was started on, with all that belongs to it,
/// whether the arguments were moved or stay in a future, and whether their types are
/// known or not.
pub proof fn law_calls_are_of_their_function<P, R>(
    typed: TypedFunc<P, R>,
    func: Func,
    host_future_present: bool,
)
    ensures
        typed.plan(host_future_present).func == typed.func,
        typed.plan(host_future_present).host_future_present == host_future_present,
        func.dynamic_plan().func == func,
        !func.dynamic_plan().host_future_present,
{
}

/// The limits of the canonical ABI.
pub proof fn law_canonical_limits()
    ensures
        MAX_FLAT_PARAMS == 16,
        MAX_FLAT_RESULTS == 1,
{
}

/// How many core parameters a call passes depends on how many core values its
/// parameters flatten to, and on nothing else. Up to the limit they are passed one by
/// one, beyond it one pointer stands for them.
pub proof fn law_room_for_parameters<P, R>(
    typed: TypedFunc<P, R>,
    func: Func,
    host_future_present: bool,
)
    ensures
        typed.param_flat <= 16 ==> typed.plan(host_future_present).param_count == typed.param_flat,
        typed.param_flat > 16 ==> typed.plan(host_future_present).param_count == 1,
        func.dynamic_plan().param_count == 16,
        forall|flat: usize| flat <= 16 ==> #[trigger] spec_flat_param_count(flat) == flat,
        forall|flat: usize| flat > 16 ==> #[trigger] spec_flat_param_count(flat) == 1,
{
}

/// Where results arrive depends on how many core values they flatten to, and on whether
/// the export is async. Results that fit are lifted from the stack, all of them and
/// nothing else; the others are lifted from memory.
pub proof fn law_where_results_arrive<P, R>(
    typed: TypedFunc<P, R>,
    func: Func,
    host_future_present: bool,
)
    ensures
        typed.func.async_ && typed.result_flat <= 16 ==> typed.plan(host_future_present).lift
            == (ResultLift::Stack { count: typed.result_flat }),
        typed.func.async_ && typed.result_flat > 16 ==> typed.plan(host_future_present).lift
            == ResultLift::Heap,
        !typed.func.async_ && typed.result_flat <= 1 ==> typed.plan(host_future_present).lift
            == (ResultLift::Stack { count: typed.result_flat }),
        !typed.func.async_ && typed.result_flat > 1 ==> typed.plan(host_future_present).lift
            == ResultLift::Heap,
        func.async_ ==> func.dynamic_plan().lift == (ResultLift::Dynamic { max_flat: 16 }),
        !func.async_ ==> func.dynamic_plan().lift == (ResultLift::Dynamic { max_flat: 1 }),
        spec_max_flat_results(true) == 16,
        spec_max_flat_results(false) == 1,
        forall|flat: usize, async_: bool|
            flat <= (if async_ {
                16int
            } else {
                1
            }) ==> #[trigger] ResultLift::spec_typed(flat, async_) == (ResultLift::Stack {
                count: flat,
            }),
        forall|flat: usize, async_: bool|
            flat > (if async_ {
                16int
            } else {
                1
            }) ==> #[trigger] ResultLift::spec_typed(flat, async_) == ResultLift::Heap,
{
}

/// How many core values lifting needs: as many as lie on the stack, or one pointer. For
/// values of run-time types their types decide.
pub proof fn law_values_that_lifting_needs(count: usize, max_flat: usize, values: nat)
    ensures
        (ResultLift::Stack { count }).spec_suffices(values) <==> count <= values,
        ResultLift::Heap.spec_suffices(values) <==> values != 0,
        (ResultLift::Dynamic { max_flat }).spec_suffices(values),
{
}

/// A call with values of run-time types starts exactly if there are as many arguments
/// and places for results as the function has, and the store supports concurrency. The
/// number of arguments is looked at first, then the number of places, then the store,
/// and an error names what was expected and what was there.
pub proof fn law_when_calls_start<V, L, E>(
    func: Func,
    store: StoreModel<V, L, E>,
    params: usize,
    results: usize,
)
    ensures
        func.start_error(store, params as nat, results as nat) is None <==> params == func.params
            && results == func.results && store.concurrency_support,
        params != func.params ==> func.start_error(store, params as nat, results as nat) == Some(
            CallError::<E>::ParamCount { expected: func.params, actual: params },
        ),
        params == func.params && results != func.results ==> func.start_error(
            store,
            params as nat,
            results as nat,
        ) == Some(CallError::<E>::ResultCount { expected: func.results, actual: results }),
        params == func.params && results == func.results && !store.concurrency_support
            ==> func.start_error(store, params as nat, results as nat) == Some(
            CallError::<E>::ConcurrencyDisabled,
        ),
{
}

/// Copies of arguments are as many as the arguments, in their order, and each is a
/// clone of the one in its place.
pub proof fn law_copies_are_one_for_one<V: Clone>(values: Seq<V>, copies: Seq<V>)
    ensures
        clones(values, copies) ==> copies.len() == values.len(),
        clones(values, copies) ==> forall|i: int|
            0 <= i < values.len() ==> cloned::<V>(values[i], #[trigger] copies[i]),
        copies.len() == values.len() && (forall|i: int|
            0 <= i < values.len() ==> cloned::<V>(values[i], #[trigger] copies[i])) ==> clones(
            values,
            copies,
        ),
{
}

/// What starting a call with these arguments does to a store: one task more, behind all
/// others, which is queued, holds all of the arguments, and is of the call's function.
/// The other tasks stay as they are.
pub proof fn law_starting_adds_a_queued_task<V, L, E, P, R>(
    store: StoreModel<V, L, E>,
    typed: TypedFunc<P, R>,
    host_future_present: bool,
    args: ArgumentsModel<V, L>,
    other: TaskId,
)
    requires
        store.tasks.len() < usize::MAX,
    ensures
        ({
            let next = store.added(
                TaskModel::prepared(args, typed.plan(host_future_present)).staged(),
            );
            let task = next.task(store.next_task());
            &&& next.tasks.len() == store.tasks.len() + 1
            &&& next.id == store.id
            &&& task.progress == Progress::Staged
            &&& task.args == Some(args)
            &&& task.plan.func == typed.func
            &&& task.outcome is None
            &&& !task.waiters.complete
            &&& (task.host_future == HostFuture::Live) == host_future_present
            &&& task.begun().progress == Progress::Lowering
            &&& other.index < store.tasks.len() ==> next.task(other)
                == store.tasks[other.index as int]
        }),
        ({
            let next = store.added(TaskModel::prepared(args, typed.func.dynamic_plan()).staged());
            let task = next.task(store.next_task());
            &&& next.tasks.len() == store.tasks.len() + 1
            &&& task.progress == Progress::Staged
            &&& task.args == Some(args)
            &&& task.plan.func == typed.func
            &&& task.host_future == HostFuture::NotApplicable
            &&& task.begun().progress == Progress::Lowering
        }),
{
}

/// What a call returns goes by how its task ended, and by nothing else that its record
/// holds. If the guest returned, it is the lifted result, or the error of lifting it.
/// It is the typed error of cancellation if and only if the task was cancelled. If the
/// parameters could not be lowered, it is the error of that.
pub proof fn law_results_follow_the_outcome<V, L, E, R>(
    store: StoreModel<V, L, E>,
    call: StagedCall<R>,
    lifted: Option<Result<R, E>>,
)
    requires
        store.wf(),
        call.resolvable(store, lifted),
    ensures
        ({
            let task = store.tasks[call.handle.task.index as int];
            let result = call.result(store, lifted);
            &&& task.outcome == Some(TaskOutcome::Returned) ==> {
                &&& forall|value: R|
                    lifted == Some(Ok::<R, E>(value)) ==> result == Ok::<R, CallError<E>>(value)
                &&& forall|error: E|
                    lifted == Some(Err::<R, E>(error)) ==> result == Err::<R, CallError<E>>(
                        CallError::Runtime(error),
                    )
            }
            &&& task.outcome == Some(TaskOutcome::Cancelled) <==> result == Err::<R, CallError<E>>(
                CallError::Cancelled(GuestTaskCancelled),
            )
            &&& forall|error: E|
                task.outcome == Some(TaskOutcome::Failed) && task.error == Some(error) ==> result
                    == Err::<R, CallError<E>>(CallError::Runtime(error))
            &&& result is Ok <==> task.outcome == Some(TaskOutcome::Returned) && lifted->0 is Ok
        }),
{
}

/// Two calls that ended in the same way return the same, whatever else is different
/// about their tasks and their stores.
pub proof fn law_results_ignore_the_rest<V, L, E, R>(
    first: StoreModel<V, L, E>,
    second: StoreModel<V, L, E>,
    one: StagedCall<R>,
    other: StagedCall<R>,
    lifted: Option<Result<R, E>>,
)
    requires
        one.handle.task.index < first.tasks.len(),
        other.handle.task.index < second.tasks.len(),
        first.tasks[one.handle.task.index as int].outcome
            == second.tasks[other.handle.task.index as int].outcome,
        first.tasks[one.handle.task.index as int].error
            == second.tasks[other.handle.task.index as int].error,
    ensures
        one.result(first, lifted) == other.result(second, lifted),
{
}

/// Resolving a call takes the error out of its task. Nothing else about the task
/// changes, no other task does, and nobody is woken.
pub proof fn law_resolving_a_call_keeps_the_store<V, L, E>(
    store: StoreModel<V, L, E>,
    task: TaskId,
    other: TaskId,
)
    requires
        store.has(task),
    ensures
        ({
            let next = store.with_task(task, store.task(task).resolved());
            &&& next.tasks.len() == store.tasks.len()
            &&& next.task(task).error is None
            &&& next.task(task).thread_exited == store.task(task).thread_exited
            &&& next.task(task).waiters == store.task(task).waiters
            &&& next.task(task).progress == store.task(task).progress
            &&& next.task(task).outcome == store.task(task).outcome
            &&& store.task(task).wakeups(next.task(task)).len() == 0
            &&& other != task && store.has(other) ==> next.task(other) == store.task(other)
        }),
{
}

/// A call can be resolved once its task has ended, and what it returns is at hand.
pub proof fn law_when_calls_can_be_resolved<V, L, E, R>(
    store: StoreModel<V, L, E>,
    call: StagedCall<R>,
    lifted: Option<Result<R, E>>,
)
    requires
        call.handle.store == store.id,
        call.handle.task.index < store.tasks.len(),
    ensures
        ({
            let task = store.tasks[call.handle.task.index as int];
            &&& task.outcome is None ==> !call.resolvable(store, lifted)
            &&& task.outcome == Some(TaskOutcome::Returned) ==> (call.resolvable(store, lifted)
                <==> lifted is Some)
            &&& task.outcome == Some(TaskOutcome::Cancelled) ==> call.resolvable(store, lifted)
            &&& task.outcome == Some(TaskOutcome::Failed) ==> (call.resolvable(store, lifted)
                <==> task.error is Some)
        }),
{
}

/// Values count as lifted exactly if there is no error among them.
pub proof fn law_lifted_means_no_error<V, E>(values: Seq<Result<V, E>>)
    ensures
        all_lifted(values) <==> !(exists|i: int|
            0 <= i < values.len() && #[trigger] values[i] is Err),
{
    if !(exists|i: int| 0 <= i < values.len() && #[trigger] values[i] is Err) {
        assert forall|i: int| 0 <= i < values.len() implies #[trigger] values[i] is Ok by {
            assert(!(values[i] is Err));
        }
    }
}

/// A handle belongs to the store whose identifier it has, if its task is there. A
/// future that waits for a task of the store is good if it holds no slot, if the slot
/// that it holds has a waker, or if the task is complete. A call whose arguments stay
/// in a future is good as long as that future is there.
pub proof fn law_what_belongs_to_a_store<V, L, E, R>(
    store: StoreModel<V, L, E>,
    handle: GuestTaskHandle,
    done: TaskDone,
    call: AsyncCall<R>,
)
    ensures
        handle.belongs_to(store) <==> handle.store == store.id && handle.task.index
            < store.tasks.len(),
        done.valid(store) <==> done.store == store.id && done.task.index < store.tasks.len() && {
            let waiters = store.tasks[done.task.index as int].waiters;
            ||| done.waiter is None
            ||| waiters.complete
            ||| done.waiter->0 < waiters.slots.len() && waiters.slots[done.waiter->0 as int] is Some
        },
        call.valid(store) <==> call.call.handle.store == store.id && call.call.handle.task.index
            < store.tasks.len() && store.tasks[call.call.handle.task.index as int].host_future
            == HostFuture::Live,
{
}

/// The diagnostic identifier of a task is its position.
pub proof fn law_diagnostic_ids_are_positions(task: TaskId)
    ensures
        task.guest_task_id().index == task.index,
{
}

/// What errors say.
pub proof fn law_error_texts<E>(expected: usize, actual: usize, error: E)
    ensures
        (CallError::<E>::ParamCount { expected, actual }).spec_message()
            == "wrong number of arguments"@,
        (CallError::<E>::ResultCount { expected, actual }).spec_message()
            == "wrong number of results"@,
        CallError::<E>::ConcurrencyDisabled.spec_message()
            == "cannot use `call_concurrent` Config::concurrency_support disabled"@,
        CallError::<E>::Cancelled(GuestTaskCancelled).spec_message() == "guest task was cancelled"@,
        CallError::<E>::TaskRemoved.spec_message() == "guest task was removed"@,
        CallError::<E>::Trap.spec_message() == "guest task trapped"@,
        CallError::Runtime(error).spec_message() == "values could not be lowered or lifted"@,
{
}

} // verus!
