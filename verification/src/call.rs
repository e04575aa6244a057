//! Calls that have been prepared or queued, and have no result yet.

use crate::error::{CallError, GuestTaskCancelled};
use crate::ids::{GuestTaskId, StoreId, TaskId};
use crate::store::{Progress, Store, StoreModel, TaskOutcome};
use crate::task::GuestTaskHandle;
use core::marker::PhantomData;
use vstd::prelude::*;

verus! {

/// A call whose task exists and is not queued yet. `R` is the type of its result.
pub struct PreparedCall<R> {
    /// The handle to the call's task.
    pub handle: GuestTaskHandle,
    /// The type of the result.
    pub marker: PhantomData<R>,
}

impl<R> PreparedCall<R> {
    /// The call that runs as the given task of the given store.
    pub fn new(store: StoreId, task: TaskId) -> (call: PreparedCall<R>)
        ensures
            call.handle == (GuestTaskHandle { store, task }),
    {
        PreparedCall { handle: GuestTaskHandle::new(store, task), marker: PhantomData }
    }

    /// The task of the call.
    pub fn task_id(&self) -> (task: TaskId)
        ensures
            task == self.handle.task,
    {
        self.handle.task_id()
    }
}

/// A call that is queued, or that runs. `R` is the type of its result.
pub struct StagedCall<R> {
    /// The handle to the call's task.
    pub handle: GuestTaskHandle,
    /// The type of the result.
    pub marker: PhantomData<R>,
}

/// What a call returns whose task ended so. `lifted` is the result that was lifted
/// out of what the guest passed to `task.return`, or the error of lifting it, and
/// `error` the error of lowering the arguments.
pub open spec fn call_result<R, E>(
    outcome: TaskOutcome,
    lifted: Option<Result<R, E>>,
    error: Option<E>,
) -> Result<R, CallError<E>> {
    match outcome {
        TaskOutcome::Returned => match lifted->0 {
            Ok(result) => Ok(result),
            Err(error) => Err(CallError::Runtime(error)),
        },
        TaskOutcome::Cancelled => Err(CallError::Cancelled(GuestTaskCancelled)),
        TaskOutcome::Failed => Err(CallError::Runtime(error->0)),
    }
}

/// Whether all of the values were lifted.
pub open spec fn all_lifted<V, E>(values: Seq<Result<V, E>>) -> bool {
    forall|i: int| 0 <= i < values.len() ==> #[trigger] values[i] is Ok
}

/// Gathers the results of a call that were lifted one by one: all of them, in order,
/// or else the error of the first that could not be lifted.
pub fn collect_lifted<V, E>(values: Vec<Result<V, E>>) -> (result: Result<Vec<V>, E>)
    ensures
        match result {
            Ok(all) => {
                &&& all_lifted(values@)
                &&& all@.len() == values@.len()
                &&& forall|i: int| 0 <= i < values@.len() ==> #[trigger] all@[i] == values@[i]->Ok_0
                &&& forall|i: int| 0 <= i < values@.len() ==> #[trigger] values@[i] is Ok
            },
            Err(error) => exists|i: int|
                0 <= i < values@.len() && #[trigger] values@[i] == Err::<V, _>(error)
                    && all_lifted(values@.take(i)) && forall|j: int|
                    0 <= j < i ==> #[trigger] values@[j] is Ok,
        },
{
    let ghost lifted = values@;
    let mut all: Vec<V> = Vec::new();
    for value in it: values
        invariant
            it.seq() == lifted,
            all@.len() == it.index(),
            forall|i: int| 0 <= i < it.index() ==> #[trigger] lifted[i] is Ok,
            forall|i: int| 0 <= i < it.index() ==> #[trigger] all@[i] == lifted[i]->Ok_0,
    {
        match value {
            Ok(value) => {
                all.push(value);
            },
            Err(error) => {
                assert(lifted[it.index() as int] == Err::<V, _>(error));
                assert(all_lifted(lifted.take(it.index() as int)));
                return Err(error);
            },
        }
    }
    Ok(all)
}

impl<R> StagedCall<R> {
    /// Queues a prepared call.
    pub fn new<V, L, E>(store: &mut Store<V, L, E>, prepared: PreparedCall<R>) -> (call: StagedCall<R>)
        requires
            old(store)@.wf(),
            prepared.handle.belongs_to(old(store)@),
        ensures
            call.handle == prepared.handle,
            final(store)@ == old(store)@.with_task(
                prepared.handle.task,
                old(store)@.task(prepared.handle.task).staged(),
            ),
            old(store)@.task(prepared.handle.task).progress == Progress::Prepared
                ==> final(store)@.task(prepared.handle.task).progress == Progress::Staged,
            final(store)@.task(prepared.handle.task).args == old(store)@.task(
                prepared.handle.task,
            ).args,
            final(store)@.wf(),
    {
        store.stage(prepared.handle.task);
        StagedCall { handle: prepared.handle, marker: PhantomData }
    }

    /// Returns the diagnostic identifier of the call's task.
    pub fn task(&self) -> (id: GuestTaskId)
        ensures
            id == self.handle.task.guest_task_id(),
    {
        self.handle.id()
    }

    /// Returns the handle to the call's task.
    pub fn task_handle(&self) -> (handle: GuestTaskHandle)
        ensures
            handle == self.handle,
    {
        self.handle
    }

    /// Whether the call is one of this store and has ended, and the result, or the
    /// error of lowering, is at hand if there is one.
    pub open spec fn resolvable<V, L, E>(
        self,
        store: StoreModel<V, L, E>,
        lifted: Option<Result<R, E>>,
    ) -> bool {
        &&& self.handle.belongs_to(store)
        &&& store.task(self.handle.task).outcome is Some
        &&& store.task(self.handle.task).outcome == Some(TaskOutcome::Returned) ==> lifted is Some
        &&& store.task(self.handle.task).outcome == Some(TaskOutcome::Failed) ==> store.task(
            self.handle.task,
        ).error is Some
    }

    /// What the call returned, once its task has ended.
    pub open spec fn result<V, L, E>(
        self,
        store: StoreModel<V, L, E>,
        lifted: Option<Result<R, E>>,
    ) -> Result<R, CallError<E>> {
        call_result(
            store.task(self.handle.task).outcome->0,
            lifted,
            store.task(self.handle.task).error,
        )
    }

    /// Resolves a call whose task has ended: with the lifted result if the guest
    /// returned one, with [`GuestTaskCancelled`] if the task was cancelled, and with
    /// the error of lowering if the parameters could not be lowered.
    pub fn resolve<V, L, E>(
        self,
        store: &mut Store<V, L, E>,
        lifted: Option<Result<R, E>>,
    ) -> (result: Result<R, CallError<E>>)
        requires
            old(store)@.wf(),
            self.resolvable(old(store)@, lifted),
        ensures
            result == self.result(old(store)@, lifted),
            old(store)@.task(self.handle.task).outcome == Some(TaskOutcome::Returned)
                ==> result == (match lifted->0 {
                Ok(value) => Ok::<R, CallError<E>>(value),
                Err(error) => Err(CallError::Runtime(error)),
            }),
            old(store)@.task(self.handle.task).outcome == Some(TaskOutcome::Cancelled)
                <==> result == Err::<R, CallError<E>>(CallError::Cancelled(GuestTaskCancelled)),
            old(store)@.task(self.handle.task).outcome == Some(TaskOutcome::Failed)
                ==> result == Err::<R, CallError<E>>(
                CallError::Runtime(old(store)@.task(self.handle.task).error->0),
            ),
            final(store)@ == old(store)@.with_task(
                self.handle.task,
                old(store)@.task(self.handle.task).resolved(),
            ),
            final(store)@.task(self.handle.task).outcome
                == old(store)@.task(self.handle.task).outcome,
            final(store)@.task(self.handle.task).thread_exited
                == old(store)@.task(self.handle.task).thread_exited,
            final(store)@.task(self.handle.task).waiters
                == old(store)@.task(self.handle.task).waiters,
            final(store)@.wf(),
    {
        let outcome = store.outcome(self.handle.task);
        let error = store.take_error(self.handle.task);
        match (outcome, lifted, error) {
            (Some(TaskOutcome::Returned), Some(Ok(result)), _) => Ok(result),
            (Some(TaskOutcome::Returned), Some(Err(error)), _) => Err(CallError::Runtime(error)),
            (Some(TaskOutcome::Failed), _, Some(error)) => Err(CallError::Runtime(error)),
            _ => Err(CallError::Cancelled(GuestTaskCancelled)),
        }
    }
}

} // verus!
