//! Handles to guest tasks, and the future that waits for one to complete.

use crate::error::CallError;
use crate::ids::{GuestTaskId, StoreId, TaskId};
use crate::store::{Store, StoreModel};
use crate::wait::{GuestTaskHandleState, Poll, Wakeups};
use core::task::Waker;
use vstd::prelude::*;

verus! {

/// A host-owned handle to a guest task.
///
/// It is there as soon as the call is started. It may be copied, used to request
/// cancellation with [`GuestTaskHandle::cancel`], and used to wait for the task to
/// produce its result and for its implicit thread to exit with
/// [`GuestTaskHandle::task_done`].
///
/// A handle holds no part of the task: dropping it does not affect the task.
#[derive(Debug, Clone, Copy, PartialEq, Eq, Structural)]
pub struct GuestTaskHandle {
    /// The store that the task belongs to.
    pub store: StoreId,
    /// The task.
    pub task: TaskId,
}

impl GuestTaskHandle {
    /// Whether the handle is one to a task of this store.
    pub open spec fn belongs_to<V, L, E>(self, store: StoreModel<V, L, E>) -> bool {
        self.store == store.id && store.has(self.task)
    }

    /// A handle to a task of a store.
    pub fn new(store: StoreId, task: TaskId) -> (handle: GuestTaskHandle)
        ensures
            handle == (GuestTaskHandle { store, task }),
    {
        GuestTaskHandle { store, task }
    }

    /// The task that this handle represents.
    pub fn task_id(&self) -> (task: TaskId)
        ensures
            task == self.task,
    {
        self.task
    }

    /// Returns the diagnostic identifier of the task that this handle represents.
    pub fn id(&self) -> (id: GuestTaskId)
        ensures
            id == self.task.guest_task_id(),
    {
        self.task.guest_task_id()
    }

    /// Requests cancellation of the task.
    ///
    /// If parameter lowering has not begun, the task is cancelled immediately and
    /// guest code is not entered. Once parameter lowering begins, cancellation is
    /// cooperative: the guest may take its time, may ignore the request, or may
    /// call `task.return` instead of `task.cancel`.
    ///
    /// The request may come before or after the call result is produced. On a
    /// complete task it does nothing.
    ///
    /// The wakers are to be woken once the store is free.
    pub fn cancel<V, L, E>(&self, store: &mut Store<V, L, E>) -> (result: Result<Wakeups, CallError<E>>)
        requires
            old(store)@.wf(),
            self.belongs_to(old(store)@),
        ensures
            old(store)@.task(self.task).waiters.complete ==> result is Ok && final(store)@
                == old(store)@,
            final(store)@ == old(store)@.with_task(
                self.task,
                old(store)@.task(self.task).cancelled(),
            ),
            match result {
                Ok(wakeups) => !old(store)@.task(self.task).was_removed() && wakeups@
                    == old(store)@.task(self.task).wakeups(final(store)@.task(self.task)),
                Err(error) => old(store)@.task(self.task).was_removed() && error
                    == CallError::<E>::TaskRemoved,
            },
            final(store)@.wf(),
    {
        assert(store@.task(self.task).wf());
        if store.is_complete(self.task) {
            assert(store@.tasks =~= store@.with_task(
                self.task,
                store@.task(self.task).cancelled(),
            ).tasks);
            Ok(Wakeups::none())
        } else {
            store.cancel_task(self.task)
        }
    }

    /// Returns a future that is ready once the task has produced its result and its
    /// implicit thread has exited.
    ///
    /// The implicit thread may go on after `task.return` or `task.cancel`, so the
    /// call may have its result before this future is ready. Threads that the guest
    /// created itself may still run when it is.
    pub fn task_done<V, L, E>(&self, store: &Store<V, L, E>) -> (done: TaskDone)
        requires
            self.belongs_to(store@),
        ensures
            done == (TaskDone { store: self.store, task: self.task, waiter: None }),
            done.valid(store@),
    {
        TaskDone::new(self.store, self.task)
    }
}

/// The future behind [`GuestTaskHandle::task_done`].
///
/// While it is pending it owns one waiter slot of the task. Whoever drops it gives the
/// slot back first, with [`TaskDone::release`] or [`TaskDone::release_state`], so that
/// a task which ignores cancellation cannot retain wakers that nobody needs.
#[derive(Debug, PartialEq, Eq)]
pub struct TaskDone {
    /// The store that the task belongs to.
    pub store: StoreId,
    /// The task that is waited for.
    pub task: TaskId,
    /// The waiter slot that the future owns.
    pub waiter: Option<usize>,
}

impl TaskDone {
    /// Whether the future waits for a task of this store, and its registration is
    /// active or void.
    pub open spec fn valid<V, L, E>(self, store: StoreModel<V, L, E>) -> bool {
        &&& self.store == store.id
        &&& store.has(self.task)
        &&& store.task(self.task).waiters.accepts(self.waiter)
    }

    /// A future that waits for a task, and is not registered yet.
    pub fn new(store: StoreId, task: TaskId) -> (done: TaskDone)
        ensures
            done == (TaskDone { store, task, waiter: None }),
    {
        TaskDone { store, task, waiter: None }
    }

    /// Polls the task's completion state.
    pub fn poll_state(&mut self, state: &mut GuestTaskHandleState, waker: &Waker) -> (poll: Poll<
        (),
    >)
        requires
            old(state)@.wf(),
            old(state)@.accepts(old(self).waiter),
        ensures
            exists|same: bool| #[trigger]
                old(state)@.may_answer(old(self).waiter, *waker, same) && final(state)@ == old(
                    state,
                )@.polled(old(self).waiter, *waker, same),
            *final(self) == (TaskDone {
                waiter: old(state)@.polled_waiter(old(self).waiter),
                ..*old(self)
            }),
            poll == (if old(state)@.complete { Poll::Ready(()) } else { Poll::Pending }),
            final(state)@.wf(),
    {
        state.poll_complete(&mut self.waiter, waker)
    }

    /// Gives the waiter slot back to the task's completion state.
    pub fn release_state(&mut self, state: &mut GuestTaskHandleState)
        requires
            old(state)@.wf(),
            old(state)@.accepts(old(self).waiter),
        ensures
            final(state)@ == (match old(self).waiter {
                Some(waiter) => old(state)@.removed(waiter),
                None => old(state)@,
            }),
            *final(self) == (TaskDone { waiter: None, ..*old(self) }),
            final(state)@.wf(),
    {
        if let Some(waiter) = self.waiter.take() {
            state.remove_waiter(waiter);
        }
    }

    /// Polls the future from within the event loop of its store.
    pub fn poll<V, L, E>(&mut self, store: &mut Store<V, L, E>, waker: &Waker) -> (poll: Poll<()>)
        requires
            old(store)@.wf(),
            old(self).valid(old(store)@),
        ensures
            exists|same: bool| #[trigger]
                old(store)@.task(old(self).task).waiters.may_answer(old(self).waiter, *waker, same)
                    && final(store)@ == old(store)@.with_task(
                    old(self).task,
                    old(store)@.task(old(self).task).polled(old(self).waiter, *waker, same),
                ),
            *final(self) == (TaskDone {
                waiter: old(store)@.task(old(self).task).waiters.polled_waiter(old(self).waiter),
                ..*old(self)
            }),
            poll == (if old(store)@.task(old(self).task).finished() {
                Poll::Ready(())
            } else {
                Poll::Pending
            }),
            final(self).valid(final(store)@),
            final(store)@.wf(),
    {
        assert(store@.task(self.task).wf());
        store.poll_complete(self.task, &mut self.waiter, waker)
    }

    /// Drops the future's registration.
    pub fn release<V, L, E>(&mut self, store: &mut Store<V, L, E>)
        requires
            old(store)@.wf(),
            old(self).valid(old(store)@),
        ensures
            final(store)@ == (match old(self).waiter {
                Some(waiter) => old(store)@.with_task(
                    old(self).task,
                    old(store)@.task(old(self).task).released(waiter),
                ),
                None => old(store)@,
            }),
            *final(self) == (TaskDone { waiter: None, ..*old(self) }),
            final(self).valid(final(store)@),
            final(store)@.wf(),
    {
        if let Some(waiter) = self.waiter.take() {
            store.remove_waiter(self.task, waiter);
        }
    }
}

} // verus!
