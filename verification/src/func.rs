//! Starting calls of functions, and finishing them.

use crate::abi::{
    flat_param_count, max_flat_results, spec_flat_param_count, spec_max_flat_results, CallPlan,
    ResultLift, MAX_FLAT_PARAMS,
};
use crate::call::{PreparedCall, StagedCall};
use crate::error::{CallError, GuestTaskCancelled};
use crate::ids::{GuestTaskId, StoreId};
use crate::store::{
    Arguments, ArgumentsModel, HostFuture, Progress, Store, StoreModel, TaskModel, TaskOutcome,
};
use crate::task::GuestTaskHandle;
use core::marker::PhantomData;
use vstd::prelude::*;

verus! {

/// A function that a guest component exports.
#[derive(Debug, Clone, Copy, PartialEq, Eq, Structural)]
pub struct Func {
    /// The store that owns the function.
    pub store: StoreId,
    /// The instance that exports it.
    pub instance: u32,
    /// Its index among the exports.
    pub index: u32,
    /// How many parameters its type has.
    pub params: usize,
    /// How many results its type has.
    pub results: usize,
    /// Whether it is exported with the async ABI.
    pub async_: bool,
}

/// Whether the second sequence holds clones of the values in the first.
pub open spec fn clones<V: Clone>(values: Seq<V>, copies: Seq<V>) -> bool {
    &&& copies.len() == values.len()
    &&& forall|i: int| 0 <= i < values.len() ==> cloned::<V>(values[i], #[trigger] copies[i])
}

impl Func {
    /// The first thing that stands in the way of a call with this many arguments
    /// and places for results.
    pub open spec fn start_error<V, L, E>(
        self,
        store: StoreModel<V, L, E>,
        params: nat,
        results: nat,
    ) -> Option<CallError<E>> {
        if params != self.params {
            Some(CallError::ParamCount { expected: self.params, actual: params as usize })
        } else if results != self.results {
            Some(CallError::ResultCount { expected: self.results, actual: results as usize })
        } else if !store.concurrency_support {
            Some(CallError::ConcurrencyDisabled)
        } else {
            None
        }
    }

    /// What a call with values of run-time types is prepared with.
    pub open spec fn dynamic_plan(self) -> CallPlan {
        CallPlan {
            func: self,
            param_count: MAX_FLAT_PARAMS,
            host_future_present: false,
            lift: ResultLift::Dynamic { max_flat: spec_max_flat_results(self.async_) },
        }
    }

    /// Checks the number of arguments and of places for results.
    fn check_params_results<E>(&self, params: usize, results: usize) -> (result: Result<
        (),
        CallError<E>,
    >)
        ensures
            match result {
                Ok(()) => params == self.params && results == self.results,
                Err(error) => error == (if params != self.params {
                    CallError::<E>::ParamCount { expected: self.params, actual: params }
                } else {
                    CallError::<E>::ResultCount { expected: self.results, actual: results }
                }) && !(params == self.params && results == self.results),
            },
    {
        if params != self.params {
            Err(CallError::ParamCount { expected: self.params, actual: params })
        } else if results != self.results {
            Err(CallError::ResultCount { expected: self.results, actual: results })
        } else {
            Ok(())
        }
    }

    /// Adds a task to the store that will call this function with `params`.
    pub(crate) fn prepare_call_dynamic<V, L, E>(
        self,
        store: &mut Store<V, L, E>,
        params: Vec<V>,
    ) -> (call: PreparedCall<Vec<V>>)
        requires
            old(store)@.wf(),
        ensures
            old(store)@.tasks.len() < usize::MAX,
            call.handle == (GuestTaskHandle {
                store: old(store)@.id,
                task: old(store)@.next_task(),
            }),
            final(store)@ == old(store)@.added(
                TaskModel::prepared(ArgumentsModel::Dynamic(params@), self.dynamic_plan()),
            ),
            final(store)@.wf(),
    {
        let plan = CallPlan {
            func: self,
            param_count: MAX_FLAT_PARAMS,
            host_future_present: false,
            lift: ResultLift::Dynamic { max_flat: max_flat_results(self.async_) },
        };
        let task = store.prepare(Arguments::Dynamic(params), plan);
        PreparedCall::new(store.id(), task)
    }

    /// Starts a concurrent call to this function: checks the numbers of arguments
    /// and results, and queues a task that will call it with copies of `params`.
    ///
    /// The results will be written to `results` when the call is finished with
    /// [`Func::finish_call_concurrent`].
    pub fn start_call_concurrent<'a, V: Clone, L, E>(
        self,
        store: &mut Store<V, L, E>,
        params: &[V],
        results: &'a mut [V],
    ) -> (call: Result<FuncCallConcurrent<'a, V>, CallError<E>>)
        requires
            old(store)@.wf(),
            self.store == old(store)@.id,
        ensures
            match self.start_error(old(store)@, params@.len(), old(results)@.len()) {
                Some(error) => {
                    &&& call == Err::<FuncCallConcurrent<'a, V>, _>(error)
                    &&& final(store)@ == old(store)@
                    &&& final(results)@ == old(results)@
                },
                None => {
                    &&& call matches Ok(started)
                    &&& started.call.handle == (GuestTaskHandle {
                        store: old(store)@.id,
                        task: old(store)@.next_task(),
                    })
                    &&& final(store)@.tasks.len() == old(store)@.tasks.len() + 1
                    &&& final(store)@.tasks[old(store)@.tasks.len() as int].progress
                        == Progress::Staged
                    &&& final(store)@.tasks[old(store)@.tasks.len() as int].plan.func == self
                    &&& final(store)@.tasks[old(store)@.tasks.len() as int].args matches Some(
                        ArgumentsModel::Dynamic(copies),
                    ) && copies.len() == params@.len() && forall|i: int|
                        0 <= i < params@.len() ==> cloned::<V>(params@[i], #[trigger] copies[i])
                    &&& forall|i: int|
                        0 <= i < old(store)@.tasks.len() ==> #[trigger] final(store)@.tasks[i]
                            == old(store)@.tasks[i]
                    &&& started.results@ == old(results)@
                    &&& final(results)@ == final(started.results)@
                    &&& old(store)@.tasks.len() < usize::MAX
                    &&& exists|copies: Seq<V>| #[trigger]
                        clones(params@, copies) && final(store)@ == old(store)@.added(
                            TaskModel::prepared(
                                ArgumentsModel::Dynamic(copies),
                                self.dynamic_plan(),
                            ).staged(),
                        )
                },
            },
            call is Ok <==> params@.len() == self.params && old(results)@.len() == self.results
                && old(store)@.concurrency_support,
            final(store)@.wf(),
    {
        match self.check_params_results(params.len(), results.len()) {
            Ok(()) => {},
            Err(error) => {
                return Err(error);
            },
        }
        if !store.concurrency_support() {
            return Err(CallError::ConcurrencyDisabled);
        }
        let mut copies: Vec<V> = Vec::new();
        copies.extend_from_slice(params);
        assert(clones(params@, copies@));
        let ghost args = ArgumentsModel::<V, L>::Dynamic(copies@);
        let prepared = self.prepare_call_dynamic(store, copies);
        let call = StagedCall::new(store, prepared);
        assert(store@.tasks =~= old(store)@.tasks.push(
            TaskModel::prepared(args, self.dynamic_plan()).staged(),
        ));
        Ok(FuncCallConcurrent { call, results })
    }

    /// Finishes a call that [`Func::start_call_concurrent`] started and whose task
    /// has ended. If the guest returned results, which were lifted to `lifted` (see
    /// [`collect_lifted`](crate::call::collect_lifted)), they are written to the places given at the start, in order. Otherwise
    /// those stay as they were.
    pub fn finish_call_concurrent<'a, V, L, E>(
        self,
        store: &mut Store<V, L, E>,
        call: FuncCallConcurrent<'a, V>,
        lifted: Option<Result<Vec<V>, E>>,
    ) -> (result: Result<(), CallError<E>>)
        requires
            old(store)@.wf(),
            call.call.resolvable(old(store)@, lifted),
            call.call.result(old(store)@, lifted) matches Ok(values) ==> values@.len()
                == call.results@.len(),
        ensures
            match call.call.result(old(store)@, lifted) {
                Ok(values) => result is Ok && final(call.results)@ == values@,
                Err(error) => result == Err::<(), _>(error) && final(call.results)@ == old(
                    call.results,
                )@,
            },
            old(store)@.task(call.call.handle.task).outcome == Some(TaskOutcome::Returned) ==> (
            match lifted->0 {
                Ok(values) => result is Ok && final(call.results)@ == values@,
                Err(error) => result == Err::<(), CallError<E>>(CallError::Runtime(error)),
            }),
            old(store)@.task(call.call.handle.task).outcome == Some(TaskOutcome::Cancelled)
                <==> result == Err::<(), CallError<E>>(CallError::Cancelled(GuestTaskCancelled)),
            old(store)@.task(call.call.handle.task).outcome == Some(TaskOutcome::Failed)
                ==> result == Err::<(), CallError<E>>(
                CallError::Runtime(old(store)@.task(call.call.handle.task).error->0),
            ),
            final(store)@ == old(store)@.with_task(
                call.call.handle.task,
                old(store)@.task(call.call.handle.task).resolved(),
            ),
            final(store)@.task(call.call.handle.task).outcome
                == old(store)@.task(call.call.handle.task).outcome,
            final(store)@.task(call.call.handle.task).thread_exited
                == old(store)@.task(call.call.handle.task).thread_exited,
            final(store)@.task(call.call.handle.task).waiters
                == old(store)@.task(call.call.handle.task).waiters,
            final(store)@.wf(),
    {
        let FuncCallConcurrent { call, results } = call;
        match call.resolve(store, lifted) {
            Err(error) => Err(error),
            Ok(values) => {
                let ghost all = values@;
                let mut i: usize = 0;
                for value in it: values
                    invariant
                        it.seq() == all,
                        i == it.index(),
                        results@.len() == all.len(),
                        forall|k: int| 0 <= k < i ==> results@[k] == all[k],
                {
                    results[i] = value;
                    i = i + 1;
                }
                assert(results@ =~= all);
                Ok(())
            },
        }
    }
}

/// A call that [`Func::start_call_concurrent`] started.
pub struct FuncCallConcurrent<'a, V> {
    /// The queued call.
    pub call: StagedCall<Vec<V>>,
    /// The places for the results.
    pub results: &'a mut [V],
}

impl<'a, V> FuncCallConcurrent<'a, V> {
    /// Returns the diagnostic identifier of the call's task.
    pub fn task(&self) -> (id: GuestTaskId)
        ensures
            id == self.call.handle.task.guest_task_id(),
    {
        self.call.task()
    }

    /// Returns a handle with which cancellation can be requested, or completion of
    /// the task waited for.
    pub fn task_handle(&self) -> (handle: GuestTaskHandle)
        ensures
            handle == self.call.handle,
    {
        self.call.task_handle()
    }
}

/// A function whose parameter type `P` and result type `R` are known.
#[derive(Debug, PartialEq, Eq)]
pub struct TypedFunc<P, R> {
    /// The function.
    pub func: Func,
    /// How many core values the parameters flatten to.
    pub param_flat: usize,
    /// How many core values the result flattens to.
    pub result_flat: usize,
    /// The types.
    pub marker: PhantomData<(P, R)>,
}

impl<P, R> Clone for TypedFunc<P, R> {
    fn clone(&self) -> (func: TypedFunc<P, R>)
        ensures
            func == *self,
    {
        *self
    }
}

impl<P, R> Copy for TypedFunc<P, R> {

}

impl<P, R> TypedFunc<P, R> {
    /// The function with the sizes of its flattened parameters and result.
    pub fn new(func: Func, param_flat: usize, result_flat: usize) -> (typed: TypedFunc<P, R>)
        ensures
            typed == (TypedFunc::<P, R> { func, param_flat, result_flat, marker: PhantomData }),
    {
        TypedFunc { func, param_flat, result_flat, marker: PhantomData }
    }

    /// What a call of this function is prepared with.
    pub open spec fn plan(self, host_future_present: bool) -> CallPlan {
        CallPlan {
            func: self.func,
            param_count: spec_flat_param_count(self.param_flat),
            host_future_present,
            lift: ResultLift::spec_typed(self.result_flat, self.func.async_),
        }
    }

    /// Adds a task to the store that will call this function with `args`.
    pub(crate) fn prepare_call<V, L, E>(
        self,
        store: &mut Store<V, L, E>,
        host_future_present: bool,
        args: Arguments<V, L>,
    ) -> (call: PreparedCall<R>)
        requires
            old(store)@.wf(),
            old(store)@.concurrency_support,
            args@ is Borrowed ==> host_future_present,
        ensures
            old(store)@.tasks.len() < usize::MAX,
            call.handle == (GuestTaskHandle {
                store: old(store)@.id,
                task: old(store)@.next_task(),
            }),
            final(store)@ == old(store)@.added(
                TaskModel::prepared(args@, self.plan(host_future_present)),
            ),
            final(store)@.wf(),
    {
        let plan = CallPlan {
            func: self.func,
            param_count: flat_param_count(self.param_flat),
            host_future_present,
            lift: ResultLift::typed(self.result_flat, self.func.async_),
        };
        let task = store.prepare(args, plan);
        PreparedCall::new(store.id(), task)
    }

    /// Starts a concurrent call to this function: queues a task that will call it
    /// with `params`. It fails if the store has no support for concurrency.
    ///
    /// `keep` puts the parameters into the form in which the store keeps them until
    /// they are lowered.
    pub fn start_call_concurrent<V, L, E, F: FnOnce(P) -> L>(
        self,
        store: &mut Store<V, L, E>,
        params: P,
        keep: F,
    ) -> (call: Result<TypedFuncCallConcurrent<R>, CallError<E>>)
        requires
            old(store)@.wf(),
            self.func.store == old(store)@.id,
            keep.requires((params,)),
        ensures
            !old(store)@.concurrency_support ==> call == Err::<TypedFuncCallConcurrent<R>, _>(
                CallError::<E>::ConcurrencyDisabled,
            ) && final(store)@ == old(store)@,
            old(store)@.concurrency_support ==> {
                &&& call matches Ok(started)
                &&& started.call.handle == (GuestTaskHandle {
                    store: old(store)@.id,
                    task: old(store)@.next_task(),
                })
                &&& old(store)@.tasks.len() < usize::MAX
                &&& final(store)@.tasks.len() == old(store)@.tasks.len() + 1
                &&& final(store)@.tasks[old(store)@.tasks.len() as int].progress
                    == Progress::Staged
                &&& final(store)@.tasks[old(store)@.tasks.len() as int].plan.func == self.func
                &&& final(store)@.tasks[old(store)@.tasks.len() as int].args matches Some(
                    ArgumentsModel::Typed(kept),
                ) && keep.ensures((params,), kept)
                &&& forall|i: int|
                    0 <= i < old(store)@.tasks.len() ==> #[trigger] final(store)@.tasks[i]
                        == old(store)@.tasks[i]
                &&& exists|kept: L| #[trigger]
                    keep.ensures((params,), kept) && final(store)@ == old(store)@.added(
                        TaskModel::prepared(
                            ArgumentsModel::Typed(kept),
                            self.plan(false),
                        ).staged(),
                    )
            },
            final(store)@.wf(),
    {
        if !store.concurrency_support() {
            return Err(CallError::ConcurrencyDisabled);
        }
        let kept = keep(params);
        let prepared = self.prepare_call(store, false, Arguments::Typed(kept));
        let call = StagedCall::new(store, prepared);
        assert(store@.tasks =~= old(store)@.tasks.push(
            TaskModel::prepared(ArgumentsModel::Typed(kept), self.plan(false)).staged(),
        ));
        Ok(TypedFuncCallConcurrent { call })
    }

    /// Finishes a call that [`TypedFunc::start_call_concurrent`] started and whose
    /// task has ended. `lifted` is the result that the guest returned, if it did.
    pub fn finish_call_concurrent<V, L, E>(
        self,
        store: &mut Store<V, L, E>,
        call: TypedFuncCallConcurrent<R>,
        lifted: Option<Result<R, E>>,
    ) -> (result: Result<R, CallError<E>>)
        requires
            old(store)@.wf(),
            call.call.resolvable(old(store)@, lifted),
        ensures
            result == call.call.result(old(store)@, lifted),
            old(store)@.task(call.call.handle.task).outcome == Some(TaskOutcome::Returned)
                ==> result == (match lifted->0 {
                Ok(value) => Ok::<R, CallError<E>>(value),
                Err(error) => Err(CallError::Runtime(error)),
            }),
            old(store)@.task(call.call.handle.task).outcome == Some(TaskOutcome::Cancelled)
                <==> result == Err::<R, CallError<E>>(CallError::Cancelled(GuestTaskCancelled)),
            old(store)@.task(call.call.handle.task).outcome == Some(TaskOutcome::Failed)
                ==> result == Err::<R, CallError<E>>(
                CallError::Runtime(old(store)@.task(call.call.handle.task).error->0),
            ),
            final(store)@ == old(store)@.with_task(
                call.call.handle.task,
                old(store)@.task(call.call.handle.task).resolved(),
            ),
            final(store)@.task(call.call.handle.task).outcome
                == old(store)@.task(call.call.handle.task).outcome,
            final(store)@.task(call.call.handle.task).thread_exited
                == old(store)@.task(call.call.handle.task).thread_exited,
            final(store)@.task(call.call.handle.task).waiters
                == old(store)@.task(call.call.handle.task).waiters,
            final(store)@.wf(),
    {
        call.call.resolve(store, lifted)
    }

    /// Starts a call whose arguments stay in the future that makes the call. The
    /// guest reads them there when the parameters are lowered.
    pub fn start_call_async_concurrent<V, L, E>(&self, store: &mut Store<V, L, E>) -> (call: AsyncCall<R>)
        requires
            old(store)@.wf(),
            old(store)@.concurrency_support,
            self.func.store == old(store)@.id,
        ensures
            call.call.handle == (GuestTaskHandle {
                store: old(store)@.id,
                task: old(store)@.next_task(),
            }),
            old(store)@.tasks.len() < usize::MAX,
            final(store)@ == old(store)@.added(
                TaskModel::prepared(ArgumentsModel::Borrowed, self.plan(true)).staged(),
            ),
            final(store)@.tasks.len() == old(store)@.tasks.len() + 1,
            final(store)@.tasks[old(store)@.tasks.len() as int].progress == Progress::Staged,
            final(store)@.tasks[old(store)@.tasks.len() as int].plan.func == self.func,
            final(store)@.tasks[old(store)@.tasks.len() as int].args == Some(
                ArgumentsModel::<V, L>::Borrowed,
            ),
            final(store)@.tasks[old(store)@.tasks.len() as int].host_future == HostFuture::Live,
            forall|i: int|
                0 <= i < old(store)@.tasks.len() ==> #[trigger] final(store)@.tasks[i] == old(
                    store,
                )@.tasks[i],
            call.valid(final(store)@),
            final(store)@.wf(),
    {
        let prepared = self.prepare_call(store, true, Arguments::Borrowed);
        let call = StagedCall::new(store, prepared);
        assert(store@.tasks =~= old(store)@.tasks.push(
            TaskModel::prepared(ArgumentsModel::<V, L>::Borrowed, self.plan(true)).staged(),
        ));
        AsyncCall { call }
    }

    /// Finishes a call that [`TypedFunc::start_call_async_concurrent`] started and
    /// whose task has ended. The future that made the call is done with then, and
    /// the store is told so.
    pub fn finish_call_async_concurrent<V, L, E>(
        &self,
        store: &mut Store<V, L, E>,
        call: AsyncCall<R>,
        lifted: Option<Result<R, E>>,
    ) -> (result: Result<R, CallError<E>>)
        requires
            old(store)@.wf(),
            call.valid(old(store)@),
            call.call.resolvable(old(store)@, lifted),
        ensures
            result == call.call.result(old(store)@, lifted),
            old(store)@.task(call.call.handle.task).outcome == Some(TaskOutcome::Returned)
                ==> result == (match lifted->0 {
                Ok(value) => Ok::<R, CallError<E>>(value),
                Err(error) => Err(CallError::Runtime(error)),
            }),
            old(store)@.task(call.call.handle.task).outcome == Some(TaskOutcome::Cancelled)
                <==> result == Err::<R, CallError<E>>(CallError::Cancelled(GuestTaskCancelled)),
            old(store)@.task(call.call.handle.task).outcome == Some(TaskOutcome::Failed)
                ==> result == Err::<R, CallError<E>>(
                CallError::Runtime(old(store)@.task(call.call.handle.task).error->0),
            ),
            final(store)@ == old(store)@.with_task(
                call.call.handle.task,
                old(store)@.task(call.call.handle.task).resolved().future_dropped(),
            ),
            final(store)@.task(call.call.handle.task).outcome
                == old(store)@.task(call.call.handle.task).outcome,
            final(store)@.task(call.call.handle.task).thread_exited
                == old(store)@.task(call.call.handle.task).thread_exited,
            final(store)@.task(call.call.handle.task).waiters
                == old(store)@.task(call.call.handle.task).waiters,
            final(store)@.task(call.call.handle.task).host_future == HostFuture::Dropped,
            final(store)@.wf(),
    {
        let task = call.call.handle.task;
        assert(store@.task(task).wf());
        let result = call.call.resolve(store, lifted);
        store.host_future_dropped(task);
        assert(store@.tasks =~= old(store)@.with_task(
            task,
            old(store)@.task(task).resolved().future_dropped(),
        ).tasks);
        result
    }
}

/// A call that [`TypedFunc::start_call_concurrent`] started.
pub struct TypedFuncCallConcurrent<R> {
    /// The queued call.
    pub call: StagedCall<R>,
}

impl<R> TypedFuncCallConcurrent<R> {
    /// Returns the diagnostic identifier of the call's task.
    pub fn task(&self) -> (id: GuestTaskId)
        ensures
            id == self.call.handle.task.guest_task_id(),
    {
        self.call.task()
    }

    /// Returns a handle with which cancellation can be requested, or completion of
    /// the task waited for.
    pub fn task_handle(&self) -> (handle: GuestTaskHandle)
        ensures
            handle == self.call.handle,
    {
        self.call.task_handle()
    }
}

/// A call that [`TypedFunc::start_call_async_concurrent`] started. The future that
/// makes the call owns it together with the arguments.
pub struct AsyncCall<R> {
    /// The queued call.
    pub call: StagedCall<R>,
}

impl<R> AsyncCall<R> {
    /// Whether the call is one of this store, and the future that its arguments stand
    /// in is there.
    pub open spec fn valid<V, L, E>(self, store: StoreModel<V, L, E>) -> bool {
        &&& self.call.handle.belongs_to(store)
        &&& store.task(self.call.handle.task).host_future == HostFuture::Live
    }

    /// The future that made the call is dropped without its result. If the
    /// parameters have not been lowered, the task is removed. While they are being
    /// lowered, the guest reads them in the future, and it must stay.
    pub fn abandon<V, L, E>(self, store: &mut Store<V, L, E>)
        requires
            old(store)@.wf(),
            self.valid(old(store)@),
            old(store)@.task(self.call.handle.task).progress != Progress::Lowering,
        ensures
            final(store)@ == old(store)@.with_task(
                self.call.handle.task,
                old(store)@.task(self.call.handle.task).future_dropped(),
            ),
            final(store)@.wf(),
    {
        store.host_future_dropped(self.call.handle.task);
    }
}

} // verus!
