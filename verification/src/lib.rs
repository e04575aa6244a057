//! Host-side bookkeeping for concurrent calls into guest components.
//!
//! A call is started with [`func::Func::start_call_concurrent`] or
//! [`func::TypedFunc::start_call_concurrent`]. That adds a guest task to a
//! [`store::Store`], which tracks the task until it has its result and its implicit
//! thread has exited. Through a [`task::GuestTaskHandle`] the host can request
//! cancellation of the task, or wait for its completion with a [`task::TaskDone`]
//! future, which registers its waker in the task's
//! [`wait::GuestTaskHandleState`].
//!
//! The event loop that runs guests reports to the store what they do:
//! [`store::Store::begin_task`], [`store::Store::finish_lowering`],
//! [`store::Store::task_return`], [`store::Store::task_cancel`] and
//! [`store::Store::exit_thread`]. An event that completes a task hands out the
//! [`wait::Wakeups`] of those who wait for it, to be woken once the store is free.
//!
//! What holds of waiters and of tasks over any course of events is stated and
//! proved in [`wait_laws`] and [`task_laws`], what each single step does in
//! [`step_laws`], and what a caller gets in [`call_laws`].

pub mod abi;
pub mod call;
pub mod call_laws;
pub mod error;
pub mod func;
pub mod ids;
pub mod step_laws;
pub mod store;
pub mod task;
pub mod task_laws;
pub mod wait;
pub mod wait_laws;
pub mod waker;
