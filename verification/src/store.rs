//! The part of a store that tracks concurrent calls: one record for each guest
//! task, from the moment its call is prepared until it is complete.

use crate::abi::CallPlan;
use crate::error::CallError;
use crate::ids::{StoreId, TaskId};
use crate::wait::{wakers_in, GuestTaskHandleState, Poll, WaitState, Wakeups};
use core::task::Waker;
use vstd::prelude::*;

verus! {

/// How far a task has come.
#[derive(Debug, Clone, Copy, PartialEq, Eq, Structural)]
pub enum Progress {
    /// The call is prepared, and not queued yet.
    Prepared,
    /// The call is queued; its parameters have not been lowered.
    Staged,
    /// The parameters are being lowered.
    Lowering,
    /// The parameters have been lowered: the guest is entered.
    Lowered,
    /// The task ended before its parameters were lowered: the guest is never
    /// entered.
    NeverEntered,
}

/// How a task ended for its caller.
#[derive(Debug, Clone, Copy, PartialEq, Eq, Structural)]
pub enum TaskOutcome {
    /// The guest called `task.return`.
    Returned,
    /// The host cancelled the task before it began, or the guest called
    /// `task.cancel`.
    Cancelled,
    /// The parameters could not be lowered.
    Failed,
}

/// The future of the host that holds the arguments of a call.
#[derive(Debug, Clone, Copy, PartialEq, Eq, Structural)]
pub enum HostFuture {
    /// The arguments were moved into the task.
    NotApplicable,
    /// The future is there, and its arguments can be read.
    Live,
    /// The future was dropped, and its arguments with it.
    Dropped,
}

/// The arguments of a call that have not been lowered yet.
#[derive(Debug, PartialEq, Eq)]
pub enum Arguments<V, L> {
    /// Values whose types are known at run time only.
    Dynamic(Vec<V>),
    /// The parameters of a typed function, in the form that the store keeps.
    Typed(L),
    /// The arguments stand in a future of the host.
    Borrowed,
}

/// What an [`Arguments`] holds.
#[verifier::ext_equal]
pub enum ArgumentsModel<V, L> {
    Dynamic(Seq<V>),
    Typed(L),
    Borrowed,
}

impl<V, L> View for Arguments<V, L> {
    type V = ArgumentsModel<V, L>;

    open spec fn view(&self) -> ArgumentsModel<V, L> {
        match *self {
            Arguments::Dynamic(values) => ArgumentsModel::Dynamic(values@),
            Arguments::Typed(params) => ArgumentsModel::Typed(params),
            Arguments::Borrowed => ArgumentsModel::Borrowed,
        }
    }
}

/// What the record of a task holds, as mathematical values.
#[verifier::ext_equal]
pub struct TaskModel<V, L, E> {
    /// The arguments, until they are lowered or will never be.
    pub args: Option<ArgumentsModel<V, L>>,
    /// What the call was prepared with.
    pub plan: CallPlan,
    /// How far the task has come.
    pub progress: Progress,
    /// The future of the host that holds the arguments.
    pub host_future: HostFuture,
    /// Whether the guest has been asked to cancel the task.
    pub cancel_requested: bool,
    /// How the task ended for its caller, once it has.
    pub outcome: Option<TaskOutcome>,
    /// The error of lowering the parameters, until the call is resolved with it.
    pub error: Option<E>,
    /// Whether the task's implicit thread ran and has exited.
    pub thread_exited: bool,
    /// The completion state and its waiters.
    pub waiters: WaitState,
}

impl<V, L, E> TaskModel<V, L, E> {
    /// The record of a call that was just prepared.
    pub open spec fn prepared(args: ArgumentsModel<V, L>, plan: CallPlan) -> TaskModel<V, L, E> {
        TaskModel {
            args: Some(args),
            plan,
            progress: Progress::Prepared,
            host_future: if plan.host_future_present {
                HostFuture::Live
            } else {
                HostFuture::NotApplicable
            },
            cancel_requested: false,
            outcome: None,
            error: None,
            thread_exited: false,
            waiters: WaitState::fresh(),
        }
    }

    /// Whether parameter lowering lies ahead.
    pub open spec fn before_lowering(self) -> bool {
        self.progress == Progress::Prepared || self.progress == Progress::Staged
    }

    /// Whether the task has its terminal result and no implicit thread runs.
    pub open spec fn finished(self) -> bool {
        self.outcome is Some && (self.progress == Progress::NeverEntered || self.thread_exited)
    }

    /// What holds of every record.
    pub open spec fn wf(self) -> bool {
        &&& self.waiters.wf()
        &&& self.waiters.complete == self.finished()
        &&& self.args is Some <==> self.before_lowering()
        &&& self.before_lowering() ==> !self.cancel_requested && self.outcome is None
        &&& self.outcome == Some(TaskOutcome::Returned) ==> self.progress == Progress::Lowered
        &&& self.outcome == Some(TaskOutcome::Failed) ==> self.progress == Progress::NeverEntered
        &&& self.error is Some ==> self.outcome == Some(TaskOutcome::Failed)
        &&& self.progress == Progress::Lowering ==> self.outcome is None
        &&& self.thread_exited ==> self.progress == Progress::Lowered
        &&& self.plan.host_future_present <==> self.host_future != HostFuture::NotApplicable
        &&& self.args == Some(ArgumentsModel::<V, L>::Borrowed) ==> self.host_future
            == HostFuture::Live
        &&& self.progress == Progress::Lowering && self.plan.host_future_present
            ==> self.host_future == HostFuture::Live
        &&& self.before_lowering() && self.plan.host_future_present ==> self.host_future
            == HostFuture::Live
    }

    /// The wakers that are to be woken when the record becomes `next`: all that are
    /// registered if that completes the task, and none otherwise.
    pub open spec fn wakeups(self, next: TaskModel<V, L, E>) -> Seq<Waker> {
        if !self.waiters.complete && next.waiters.complete {
            wakers_in(self.waiters.slots)
        } else {
            Seq::empty()
        }
    }

    /// The record with its waiters taken out, where the task has just finished.
    pub open spec fn settled(self) -> TaskModel<V, L, E> {
        if self.finished() && !self.waiters.complete {
            TaskModel { waiters: self.waiters.completed(), ..self }
        } else {
            self
        }
    }

    /// The record after the call was queued.
    pub open spec fn staged(self) -> TaskModel<V, L, E> {
        if self.progress == Progress::Prepared {
            TaskModel { progress: Progress::Staged, ..self }
        } else {
            self
        }
    }

    /// The record after the event loop came to the task: lowering of the parameters
    /// of a queued call begins. Any other task is passed over.
    pub open spec fn begun(self) -> TaskModel<V, L, E> {
        if self.progress == Progress::Staged {
            TaskModel { progress: Progress::Lowering, args: None, ..self }
        } else {
            self
        }
    }

    /// The record after lowering came to this end. If it failed, its error is how
    /// the task ends for its caller, and the guest is never entered.
    pub open spec fn lowered(self, lowering: Result<(), E>) -> TaskModel<V, L, E> {
        match lowering {
            Ok(()) => TaskModel { progress: Progress::Lowered, ..self },
            Err(error) => TaskModel {
                progress: Progress::NeverEntered,
                error: Some(error),
                ..self
            }.ended(TaskOutcome::Failed),
        }
    }

    /// The record after the call was resolved.
    pub open spec fn resolved(self) -> TaskModel<V, L, E> {
        TaskModel { error: None, ..self }
    }

    /// Whether the future that holds the arguments is there, and may be dropped:
    /// not while they are read.
    pub open spec fn may_drop_future(self) -> bool {
        self.host_future == HostFuture::Live && self.progress != Progress::Lowering
    }

    /// Whether the guest may call `task.return`.
    pub open spec fn may_return(self) -> bool {
        self.progress == Progress::Lowered && self.outcome is None
    }

    /// Whether parameter lowering has begun and the task has not ended, so that the
    /// guest can be asked to cancel it.
    pub open spec fn may_be_asked(self) -> bool {
        (self.progress == Progress::Lowering || self.progress == Progress::Lowered)
            && self.outcome is None
    }

    /// Whether the guest may call `task.cancel`: only to acknowledge a request.
    pub open spec fn may_acknowledge(self) -> bool {
        self.may_return() && self.cancel_requested
    }

    /// The record after the task ended for its caller.
    pub open spec fn ended(self, outcome: TaskOutcome) -> TaskModel<V, L, E> {
        TaskModel { outcome: Some(outcome), ..self }.settled()
    }

    /// Whether the implicit thread is running.
    pub open spec fn thread_running(self) -> bool {
        self.progress == Progress::Lowered && !self.thread_exited
    }

    /// The record after the implicit thread exited.
    pub open spec fn exited(self) -> TaskModel<V, L, E> {
        TaskModel { thread_exited: true, ..self }.settled()
    }

    /// Whether the task was removed: it never begins, and has no result.
    pub open spec fn was_removed(self) -> bool {
        self.progress == Progress::NeverEntered && self.outcome is None
    }

    /// The record after the host asked for cancellation. Before parameter lowering
    /// the task ends at once. After that the guest is asked, unless the caller has
    /// its result already.
    pub open spec fn cancelled(self) -> TaskModel<V, L, E> {
        if self.before_lowering() {
            TaskModel { progress: Progress::NeverEntered, args: None, ..self }.ended(
                TaskOutcome::Cancelled,
            )
        } else if self.may_be_asked() {
            TaskModel { cancel_requested: true, ..self }
        } else {
            self
        }
    }

    /// The record after a future with this registration polled for completion.
    pub open spec fn polled(self, waiter: Option<usize>, waker: Waker, same: bool) -> TaskModel<
        V,
        L,
        E,
    > {
        TaskModel { waiters: self.waiters.polled(waiter, waker, same), ..self }
    }

    /// The record after a waiter slot was given back.
    pub open spec fn released(self, waiter: usize) -> TaskModel<V, L, E> {
        TaskModel { waiters: self.waiters.removed(waiter), ..self }
    }

    /// The record after the future that holds the arguments was dropped: a task
    /// whose parameters have not been lowered is removed.
    pub open spec fn future_dropped(self) -> TaskModel<V, L, E> {
        if self.before_lowering() {
            TaskModel {
                progress: Progress::NeverEntered,
                args: None,
                host_future: HostFuture::Dropped,
                ..self
            }
        } else {
            TaskModel { host_future: HostFuture::Dropped, ..self }
        }
    }
}

/// The record of one guest task.
struct GuestTask<V, L, E> {
    args: Option<Arguments<V, L>>,
    plan: CallPlan,
    progress: Progress,
    host_future: HostFuture,
    cancel_requested: bool,
    outcome: Option<TaskOutcome>,
    error: Option<E>,
    thread_exited: bool,
    state: GuestTaskHandleState,
}

impl<V, L, E> GuestTask<V, L, E> {
    spec fn model(self) -> TaskModel<V, L, E> {
        TaskModel {
            args: match self.args {
                Some(args) => Some(args@),
                None => None,
            },
            plan: self.plan,
            progress: self.progress,
            host_future: self.host_future,
            cancel_requested: self.cancel_requested,
            outcome: self.outcome,
            error: self.error,
            thread_exited: self.thread_exited,
            waiters: self.state@,
        }
    }

    fn new(args: Arguments<V, L>, plan: CallPlan) -> (task: GuestTask<V, L, E>)
        ensures
            task.model() == TaskModel::<V, L, E>::prepared(args@, plan),
    {
        GuestTask {
            args: Some(args),
            plan,
            progress: Progress::Prepared,
            host_future: if plan.host_future_present {
                HostFuture::Live
            } else {
                HostFuture::NotApplicable
            },
            cancel_requested: false,
            outcome: None,
            error: None,
            thread_exited: false,
            state: GuestTaskHandleState::new(),
        }
    }

    fn finished(&self) -> (finished: bool)
        ensures
            finished == self.model().finished(),
    {
        self.outcome.is_some() && (self.progress == Progress::NeverEntered || self.thread_exited)
    }

    fn settle(&mut self) -> (wakeups: Wakeups)
        requires
            old(self).model().waiters.wf(),
        ensures
            wakeups@ == old(self).model().wakeups(final(self).model()),
            final(self).model() == old(self).model().settled(),
            final(self).model().waiters.wf(),
    {
        if self.finished() && !self.state.is_complete() {
            self.state.complete()
        } else {
            Wakeups::none()
        }
    }

    fn begin(&mut self) -> (args: Option<Arguments<V, L>>)
        requires
            old(self).model().wf(),
        ensures
            final(self).model() == old(self).model().begun(),
            final(self).model().wf(),
            old(self).model().progress == Progress::Staged ==> args is Some && Some(args->0@)
                == old(self).model().args,
            old(self).model().progress != Progress::Staged ==> args is None,
    {
        if self.progress == Progress::Staged {
            self.progress = Progress::Lowering;
            self.args.take()
        } else {
            None
        }
    }

    fn lower(&mut self, lowering: Result<(), E>) -> (wakeups: Wakeups)
        requires
            old(self).model().wf(),
            old(self).model().progress == Progress::Lowering,
        ensures
            wakeups@ == old(self).model().wakeups(final(self).model()),
            final(self).model() == old(self).model().lowered(lowering),
            final(self).model().wf(),
    {
        match lowering {
            Ok(()) => {
                self.progress = Progress::Lowered;
                Wakeups::none()
            },
            Err(error) => {
                self.progress = Progress::NeverEntered;
                self.outcome = Some(TaskOutcome::Failed);
                self.error = Some(error);
                self.settle()
            },
        }
    }

    fn end(&mut self, outcome: TaskOutcome) -> (wakeups: Wakeups)
        requires
            old(self).model().wf(),
            old(self).model().may_return(),
            outcome != TaskOutcome::Failed,
        ensures
            wakeups@ == old(self).model().wakeups(final(self).model()),
            final(self).model() == old(self).model().ended(outcome),
            final(self).model().wf(),
    {
        self.outcome = Some(outcome);
        self.settle()
    }

    fn exit(&mut self) -> (wakeups: Wakeups)
        requires
            old(self).model().wf(),
            old(self).model().thread_running(),
        ensures
            wakeups@ == old(self).model().wakeups(final(self).model()),
            final(self).model() == old(self).model().exited(),
            final(self).model().wf(),
    {
        self.thread_exited = true;
        self.settle()
    }

    fn cancel(&mut self) -> (result: Result<Wakeups, CallError<E>>)
        requires
            old(self).model().wf(),
        ensures
            final(self).model() == old(self).model().cancelled(),
            final(self).model().wf(),
            match result {
                Ok(wakeups) => !old(self).model().was_removed() && wakeups@
                    == old(self).model().wakeups(final(self).model()),
                Err(error) => old(self).model().was_removed() && error == CallError::<E>::TaskRemoved,
            },
    {
        match self.progress {
            Progress::Prepared | Progress::Staged => {
                self.progress = Progress::NeverEntered;
                self.args = None;
                self.outcome = Some(TaskOutcome::Cancelled);
                Ok(self.settle())
            },
            Progress::Lowering | Progress::Lowered => {
                if self.outcome.is_none() {
                    self.cancel_requested = true;
                }
                Ok(Wakeups::none())
            },
            Progress::NeverEntered => {
                if self.outcome.is_none() {
                    Err(CallError::TaskRemoved)
                } else {
                    Ok(Wakeups::none())
                }
            },
        }
    }

    fn drop_future(&mut self)
        requires
            old(self).model().wf(),
            old(self).model().may_drop_future(),
        ensures
            final(self).model() == old(self).model().future_dropped(),
            final(self).model().wf(),
    {
        self.host_future = HostFuture::Dropped;
        match self.progress {
            Progress::Prepared | Progress::Staged => {
                self.progress = Progress::NeverEntered;
                self.args = None;
            },
            _ => {},
        }
    }
}

/// What a [`Store`] holds, as mathematical values.
#[verifier::ext_equal]
pub struct StoreModel<V, L, E> {
    /// The store's identifier.
    pub id: StoreId,
    /// Whether the store was made with support for concurrency.
    pub concurrency_support: bool,
    /// The records of the tasks; a [`TaskId`] is an index into them.
    pub tasks: Seq<TaskModel<V, L, E>>,
}

impl<V, L, E> StoreModel<V, L, E> {
    /// What holds of every store.
    pub open spec fn wf(self) -> bool {
        forall|i: int| 0 <= i < self.tasks.len() ==> #[trigger] self.tasks[i].wf()
    }

    /// Whether the task is one of this store.
    pub open spec fn has(self, task: TaskId) -> bool {
        task.index < self.tasks.len()
    }

    /// The record of a task.
    pub open spec fn task(self, task: TaskId) -> TaskModel<V, L, E> {
        self.tasks[task.index as int]
    }

    /// The store with another record for one task.
    pub open spec fn with_task(self, task: TaskId, record: TaskModel<V, L, E>) -> StoreModel<V, L, E> {
        StoreModel { tasks: self.tasks.update(task.index as int, record), ..self }
    }

    /// The identifier that the next task gets.
    pub open spec fn next_task(self) -> TaskId {
        TaskId { index: self.tasks.len() as usize }
    }

    /// The store with one more task.
    pub open spec fn added(self, record: TaskModel<V, L, E>) -> StoreModel<V, L, E> {
        StoreModel { tasks: self.tasks.push(record), ..self }
    }
}

/// The concurrent state of one store.
///
/// `V` is the type of values whose own types are known at run time only. `L` is the
/// form in which the parameters of typed functions are kept until they are lowered.
/// `E` is the type of the errors of lowering and lifting.
pub struct Store<V, L, E> {
    id: StoreId,
    concurrency_support: bool,
    tasks: Vec<GuestTask<V, L, E>>,
}

impl<V, L, E> View for Store<V, L, E> {
    type V = StoreModel<V, L, E>;

    closed spec fn view(&self) -> StoreModel<V, L, E> {
        StoreModel {
            id: self.id,
            concurrency_support: self.concurrency_support,
            tasks: self.tasks@.map_values(|task: GuestTask<V, L, E>| task.model()),
        }
    }
}

impl<V, L, E> Store<V, L, E> {
    /// A store without tasks.
    pub fn new(id: StoreId, concurrency_support: bool) -> (store: Store<V, L, E>)
        ensures
            store@ == (StoreModel::<V, L, E> { id, concurrency_support, tasks: Seq::empty() }),
            store@.wf(),
    {
        Store { id, concurrency_support, tasks: Vec::new() }
    }

    /// The store's identifier.
    pub fn id(&self) -> (id: StoreId)
        ensures
            id == self@.id,
    {
        self.id
    }

    /// Whether the store was made with support for concurrency.
    pub fn concurrency_support(&self) -> (supported: bool)
        ensures
            supported == self@.concurrency_support,
    {
        self.concurrency_support
    }

    /// Whether the task is one of this store.
    pub fn has(&self, task: TaskId) -> (found: bool)
        ensures
            found == self@.has(task),
    {
        task.index < self.tasks.len()
    }

    /// What the call of the task was prepared with.
    pub fn plan(&self, task: TaskId) -> (plan: CallPlan)
        requires
            self@.has(task),
        ensures
            plan == self@.task(task).plan,
    {
        self.tasks[task.index].plan
    }

    /// How far the task has come.
    pub fn progress(&self, task: TaskId) -> (progress: Progress)
        requires
            self@.has(task),
        ensures
            progress == self@.task(task).progress,
    {
        self.tasks[task.index].progress
    }

    /// Whether the guest has been asked to cancel the task.
    pub fn cancel_requested(&self, task: TaskId) -> (requested: bool)
        requires
            self@.has(task),
        ensures
            requested == self@.task(task).cancel_requested,
    {
        self.tasks[task.index].cancel_requested
    }

    /// How the task ended for its caller, or `None` while it has not.
    pub fn outcome(&self, task: TaskId) -> (outcome: Option<TaskOutcome>)
        requires
            self@.has(task),
        ensures
            outcome == self@.task(task).outcome,
    {
        self.tasks[task.index].outcome
    }

    /// Whether the future that holds the arguments of the task's call is there.
    pub fn host_future(&self, task: TaskId) -> (host_future: HostFuture)
        requires
            self@.has(task),
        ensures
            host_future == self@.task(task).host_future,
    {
        self.tasks[task.index].host_future
    }

    /// Whether the task has its result and its implicit thread has exited.
    pub fn is_complete(&self, task: TaskId) -> (complete: bool)
        requires
            self@.has(task),
        ensures
            complete == self@.task(task).waiters.complete,
    {
        self.tasks[task.index].state.is_complete()
    }

    /// Adds a task for a prepared call.
    pub(crate) fn prepare(&mut self, args: Arguments<V, L>, plan: CallPlan) -> (task: TaskId)
        requires
            old(self)@.wf(),
            args@ is Borrowed ==> plan.host_future_present,
        ensures
            task == old(self)@.next_task(),
            old(self)@.tasks.len() < usize::MAX,
            final(self)@ == old(self)@.added(TaskModel::prepared(args@, plan)),
            final(self)@.task(task).args == Some(args@),
            final(self)@.task(task).plan == plan,
            final(self)@.task(task).progress == Progress::Prepared,
            final(self)@.wf(),
    {
        let index: usize = self.tasks.len();
        self.tasks.push(GuestTask::new(args, plan));
        assert(self.tasks.len() == index + 1);
        assert(self@.tasks =~= old(self)@.tasks.push(TaskModel::prepared(args@, plan)));
        TaskId { index }
    }

    /// Queues a prepared call, for the event loop to begin it.
    pub(crate) fn stage(&mut self, task: TaskId)
        requires
            old(self)@.wf(),
            old(self)@.has(task),
        ensures
            final(self)@ == old(self)@.with_task(task, old(self)@.task(task).staged()),
            old(self)@.task(task).progress == Progress::Prepared ==> final(self)@.task(
                task,
            ).progress == Progress::Staged,
            final(self)@.task(task).args == old(self)@.task(task).args,
            final(self)@.task(task).plan == old(self)@.task(task).plan,
            final(self)@.wf(),
    {
        assert(self@.task(task).wf());
        let record = &mut self.tasks[task.index];
        if record.progress == Progress::Prepared {
            record.progress = Progress::Staged;
        }
        assert(self@.tasks =~= old(self)@.with_task(task, old(self)@.task(task).staged()).tasks);
    }

    /// The event loop comes to a task. The parameters of a queued call are to be
    /// lowered now, and the arguments are handed out: once, and never again. How
    /// lowering ends is reported with [`Store::finish_lowering`]. For any other task
    /// there is nothing to lower, and the guest is not entered.
    pub fn begin_task(&mut self, task: TaskId) -> (args: Option<Arguments<V, L>>)
        requires
            old(self)@.wf(),
            old(self)@.has(task),
        ensures
            final(self)@ == old(self)@.with_task(task, old(self)@.task(task).begun()),
            final(self)@.wf(),
            old(self)@.task(task).progress == Progress::Staged ==> args is Some && Some(args->0@)
                == old(self)@.task(task).args,
            old(self)@.task(task).progress != Progress::Staged ==> args is None,
            old(self)@.task(task).progress == Progress::Staged ==> final(self)@.task(
                task,
            ).progress == Progress::Lowering,
            old(self)@.task(task).progress != Progress::Staged ==> final(self)@ == old(self)@,
    {
        assert(self@.task(task).wf());
        let args = self.tasks[task.index].begin();
        assert(self@.tasks =~= old(self)@.with_task(task, old(self)@.task(task).begun()).tasks);
        args
    }

    /// The event loop has lowered the parameters of a task, or failed to. After an
    /// error the task has ended for its caller, with that very error, and the guest
    /// is not entered. A task whose parameters are not being lowered traps instead.
    ///
    /// The wakers are to be woken once the store is free.
    pub fn finish_lowering(&mut self, task: TaskId, lowering: Result<(), E>) -> (result: Result<
        Wakeups,
        CallError<E>,
    >)
        requires
            old(self)@.wf(),
            old(self)@.has(task),
        ensures
            match result {
                Ok(wakeups) => {
                    &&& old(self)@.task(task).progress == Progress::Lowering
                    &&& final(self)@ == old(self)@.with_task(
                        task,
                        old(self)@.task(task).lowered(lowering),
                    )
                    &&& wakeups@ == old(self)@.task(task).wakeups(final(self)@.task(task))
                    &&& match lowering {
                        Ok(()) => final(self)@.task(task).progress == Progress::Lowered
                            && wakeups@.len() == 0,
                        Err(error) => final(self)@.task(task).outcome == Some(TaskOutcome::Failed)
                            && final(self)@.task(task).error == Some(error) && wakeups@
                            == wakers_in(old(self)@.task(task).waiters.slots),
                    }
                },
                Err(error) => {
                    &&& old(self)@.task(task).progress != Progress::Lowering
                    &&& error == CallError::<E>::Trap
                    &&& final(self)@ == old(self)@
                },
            },
            final(self)@.wf(),
    {
        assert(self@.task(task).wf());
        let record = &mut self.tasks[task.index];
        if record.progress == Progress::Lowering {
            let wakeups = record.lower(lowering);
            assert(self@.tasks =~= old(self)@.with_task(
                task,
                old(self)@.task(task).lowered(lowering),
            ).tasks);
            Ok(wakeups)
        } else {
            assert(self@.tasks =~= old(self)@.tasks);
            Err(CallError::Trap)
        }
    }

    /// The error of lowering the parameters of a task, until its call is resolved
    /// with it.
    pub fn lowering_error(&self, task: TaskId) -> (error: Option<&E>)
        requires
            self@.has(task),
        ensures
            match error {
                Some(error) => self@.task(task).error == Some(*error),
                None => self@.task(task).error is None,
            },
    {
        self.tasks[task.index].error.as_ref()
    }

    /// Takes the error of lowering the parameters of a task, to resolve its call.
    pub(crate) fn take_error(&mut self, task: TaskId) -> (error: Option<E>)
        requires
            old(self)@.wf(),
            old(self)@.has(task),
        ensures
            error == old(self)@.task(task).error,
            final(self)@ == old(self)@.with_task(task, old(self)@.task(task).resolved()),
            final(self)@.task(task).error is None,
            final(self)@.task(task).outcome == old(self)@.task(task).outcome,
            final(self)@.task(task).thread_exited == old(self)@.task(task).thread_exited,
            final(self)@.task(task).waiters == old(self)@.task(task).waiters,
            final(self)@.wf(),
    {
        assert(self@.task(task).wf());
        let error = self.tasks[task.index].error.take();
        assert(self@.tasks =~= old(self)@.with_task(task, old(self)@.task(task).resolved()).tasks);
        error
    }

    /// The guest calls `task.return`: the call has its result. A task that the guest
    /// has not entered, or whose caller has its answer already, traps instead.
    ///
    /// The wakers are to be woken once the store is free.
    pub fn task_return(&mut self, task: TaskId) -> (result: Result<Wakeups, CallError<E>>)
        requires
            old(self)@.wf(),
            old(self)@.has(task),
        ensures
            match result {
                Ok(wakeups) => {
                    &&& old(self)@.task(task).may_return()
                    &&& final(self)@ == old(self)@.with_task(
                        task,
                        old(self)@.task(task).ended(TaskOutcome::Returned),
                    )
                    &&& wakeups@ == old(self)@.task(task).wakeups(final(self)@.task(task))
                    &&& final(self)@.task(task).outcome == Some(TaskOutcome::Returned)
                    &&& final(self)@.task(task).thread_exited == old(self)@.task(
                        task,
                    ).thread_exited
                    &&& old(self)@.task(task).thread_exited ==> wakeups@ == wakers_in(
                        old(self)@.task(task).waiters.slots,
                    )
                    &&& !old(self)@.task(task).thread_exited ==> wakeups@.len() == 0
                },
                Err(error) => {
                    &&& !old(self)@.task(task).may_return()
                    &&& error == CallError::<E>::Trap
                    &&& final(self)@ == old(self)@
                },
            },
            final(self)@.wf(),
    {
        assert(self@.task(task).wf());
        let record = &mut self.tasks[task.index];
        if record.progress == Progress::Lowered && record.outcome.is_none() {
            let wakeups = record.end(TaskOutcome::Returned);
            assert(self@.tasks =~= old(self)@.with_task(
                task,
                old(self)@.task(task).ended(TaskOutcome::Returned),
            ).tasks);
            Ok(wakeups)
        } else {
            assert(self@.tasks =~= old(self)@.tasks);
            Err(CallError::Trap)
        }
    }

    /// The guest calls `task.cancel` to acknowledge a cancellation request. Without
    /// such a request, or where `task.return` may not be called either, it traps.
    ///
    /// The wakers are to be woken once the store is free.
    pub fn task_cancel(&mut self, task: TaskId) -> (result: Result<Wakeups, CallError<E>>)
        requires
            old(self)@.wf(),
            old(self)@.has(task),
        ensures
            match result {
                Ok(wakeups) => {
                    &&& old(self)@.task(task).may_acknowledge()
                    &&& final(self)@ == old(self)@.with_task(
                        task,
                        old(self)@.task(task).ended(TaskOutcome::Cancelled),
                    )
                    &&& wakeups@ == old(self)@.task(task).wakeups(final(self)@.task(task))
                    &&& final(self)@.task(task).outcome == Some(TaskOutcome::Cancelled)
                    &&& final(self)@.task(task).thread_exited == old(self)@.task(
                        task,
                    ).thread_exited
                    &&& old(self)@.task(task).thread_exited ==> wakeups@ == wakers_in(
                        old(self)@.task(task).waiters.slots,
                    )
                    &&& !old(self)@.task(task).thread_exited ==> wakeups@.len() == 0
                },
                Err(error) => {
                    &&& !old(self)@.task(task).may_acknowledge()
                    &&& error == CallError::<E>::Trap
                    &&& final(self)@ == old(self)@
                },
            },
            final(self)@.wf(),
    {
        assert(self@.task(task).wf());
        let record = &mut self.tasks[task.index];
        if record.progress == Progress::Lowered && record.outcome.is_none()
            && record.cancel_requested {
            let wakeups = record.end(TaskOutcome::Cancelled);
            assert(self@.tasks =~= old(self)@.with_task(
                task,
                old(self)@.task(task).ended(TaskOutcome::Cancelled),
            ).tasks);
            Ok(wakeups)
        } else {
            assert(self@.tasks =~= old(self)@.tasks);
            Err(CallError::Trap)
        }
    }

    /// The task's implicit thread exits. A task without a running implicit thread
    /// traps instead.
    ///
    /// The wakers are to be woken once the store is free.
    pub fn exit_thread(&mut self, task: TaskId) -> (result: Result<Wakeups, CallError<E>>)
        requires
            old(self)@.wf(),
            old(self)@.has(task),
        ensures
            match result {
                Ok(wakeups) => {
                    &&& old(self)@.task(task).thread_running()
                    &&& final(self)@ == old(self)@.with_task(
                        task,
                        old(self)@.task(task).exited(),
                    )
                    &&& wakeups@ == old(self)@.task(task).wakeups(final(self)@.task(task))
                    &&& final(self)@.task(task).thread_exited
                    &&& final(self)@.task(task).outcome == old(self)@.task(task).outcome
                    &&& old(self)@.task(task).outcome is Some ==> wakeups@ == wakers_in(
                        old(self)@.task(task).waiters.slots,
                    )
                    &&& old(self)@.task(task).outcome is None ==> wakeups@.len() == 0
                },
                Err(error) => {
                    &&& !old(self)@.task(task).thread_running()
                    &&& error == CallError::<E>::Trap
                    &&& final(self)@ == old(self)@
                },
            },
            final(self)@.wf(),
    {
        assert(self@.task(task).wf());
        let record = &mut self.tasks[task.index];
        if record.progress == Progress::Lowered && !record.thread_exited {
            let wakeups = record.exit();
            assert(self@.tasks =~= old(self)@.with_task(
                task,
                old(self)@.task(task).exited(),
            ).tasks);
            Ok(wakeups)
        } else {
            assert(self@.tasks =~= old(self)@.tasks);
            Err(CallError::Trap)
        }
    }

    /// The host asks for cancellation of a task. Before parameter lowering the
    /// task ends at once and the guest is not entered. After that the guest is
    /// asked, and may take its time, ignore the request, or return a result.
    ///
    /// The wakers are to be woken once the store is free.
    pub fn cancel_task(&mut self, task: TaskId) -> (result: Result<Wakeups, CallError<E>>)
        requires
            old(self)@.wf(),
            old(self)@.has(task),
        ensures
            final(self)@ == old(self)@.with_task(task, old(self)@.task(task).cancelled()),
            final(self)@.wf(),
            match result {
                Ok(wakeups) => !old(self)@.task(task).was_removed() && wakeups@
                    == old(self)@.task(task).wakeups(final(self)@.task(task)),
                Err(error) => old(self)@.task(task).was_removed() && error
                    == CallError::<E>::TaskRemoved,
            },
    {
        let result = self.tasks[task.index].cancel();
        assert(self@.tasks =~= old(self)@.with_task(task, old(self)@.task(task).cancelled()).tasks);
        result
    }

    /// The future that holds the arguments of the task's call is dropped. A task
    /// whose parameters have not been lowered is removed, so that nobody reads the
    /// arguments any more. While they are being lowered the future must stay.
    pub(crate) fn host_future_dropped(&mut self, task: TaskId)
        requires
            old(self)@.wf(),
            old(self)@.has(task),
            old(self)@.task(task).may_drop_future(),
        ensures
            final(self)@ == old(self)@.with_task(task, old(self)@.task(task).future_dropped()),
            final(self)@.wf(),
    {
        self.tasks[task.index].drop_future();
        assert(self@.tasks =~= old(self)@.with_task(
            task,
            old(self)@.task(task).future_dropped(),
        ).tasks);
    }

    /// Whether a future that holds the waiter slot `waiter` of the task, or none,
    /// may poll.
    pub fn accepts(&self, task: TaskId, waiter: Option<usize>) -> (accepted: bool)
        requires
            self@.has(task),
        ensures
            accepted == self@.task(task).waiters.accepts(waiter),
    {
        self.tasks[task.index].state.accepts(waiter)
    }

    /// Polls for completion of a task, as [`GuestTaskHandleState::poll_complete`].
    pub(crate) fn poll_complete(
        &mut self,
        task: TaskId,
        waiter: &mut Option<usize>,
        waker: &Waker,
    ) -> (poll: Poll<()>)
        requires
            old(self)@.wf(),
            old(self)@.has(task),
            old(self)@.task(task).waiters.accepts(*old(waiter)),
        ensures
            exists|same: bool| #[trigger]
                old(self)@.task(task).waiters.may_answer(*old(waiter), *waker, same) && final(self)@
                    == old(self)@.with_task(
                    task,
                    old(self)@.task(task).polled(*old(waiter), *waker, same),
                ),
            *final(waiter) == old(self)@.task(task).waiters.polled_waiter(*old(waiter)),
            poll == (if old(self)@.task(task).waiters.complete {
                Poll::Ready(())
            } else {
                Poll::Pending
            }),
            final(self)@.wf(),
    {
        assert(self@.task(task).wf());
        let ghost waiter_before = *waiter;
        let poll = self.tasks[task.index].state.poll_complete(waiter, waker);
        proof {
            let before = old(self)@.task(task).waiters;
            let same = choose|same: bool| #[trigger]
                before.may_answer(waiter_before, *waker, same) && self@.task(task).waiters
                    == before.polled(waiter_before, *waker, same);
            assert(self@.tasks =~= old(self)@.with_task(
                task,
                old(self)@.task(task).polled(waiter_before, *waker, same),
            ).tasks);
        }
        poll
    }

    /// Gives back a waiter slot of a task, as
    /// [`GuestTaskHandleState::remove_waiter`].
    pub(crate) fn remove_waiter(&mut self, task: TaskId, waiter: usize)
        requires
            old(self)@.wf(),
            old(self)@.has(task),
            !old(self)@.task(task).waiters.complete ==> waiter < old(self)@.task(
                task,
            ).waiters.slots.len(),
        ensures
            final(self)@ == old(self)@.with_task(task, old(self)@.task(task).released(waiter)),
            final(self)@.wf(),
    {
        assert(self@.task(task).wf());
        self.tasks[task.index].state.remove_waiter(waiter);
        assert(self@.tasks =~= old(self)@.with_task(
            task,
            old(self)@.task(task).released(waiter),
        ).tasks);
    }
}

} // verus!
