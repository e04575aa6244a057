//! What a call or a request can fail with.

use vstd::prelude::*;

verus! {

/// The error of a call that was cancelled: by the host before parameter lowering
/// began, or by the guest, which acknowledged a request with `task.cancel`.
///
/// Once parameter lowering has begun, the guest may instead ignore the request or
/// call `task.return`, and the call then returns its result as usual.
#[derive(Debug, Clone, Copy, PartialEq, Eq, Structural)]
pub struct GuestTaskCancelled;

impl GuestTaskCancelled {
    /// The text that describes the error.
    pub fn message(&self) -> (text: &'static str)
        ensures
            text@ == "guest task was cancelled"@,
    {
        "guest task was cancelled"
    }
}

/// The errors of this library. `E` is the type of the errors that lowering and
/// lifting can fail with.
#[derive(Debug, PartialEq, Eq)]
pub enum CallError<E> {
    /// The call has another number of arguments than the function has parameters.
    ParamCount { expected: usize, actual: usize },
    /// There are more or fewer places for results than the function has results.
    ResultCount { expected: usize, actual: usize },
    /// The store was made without support for concurrency.
    ConcurrencyDisabled,
    /// The call was cancelled.
    Cancelled(GuestTaskCancelled),
    /// The task was removed before it began, since the future that held its
    /// arguments was dropped.
    TaskRemoved,
    /// The guest or the runtime broke off the call.
    Trap,
    /// The arguments could not be lowered, or the results not be lifted, and this is
    /// why.
    Runtime(E),
}

impl<E> CallError<E> {
    /// The text that describes the error.
    pub open spec fn spec_message(self) -> Seq<char> {
        match self {
            CallError::ParamCount { .. } => "wrong number of arguments"@,
            CallError::ResultCount { .. } => "wrong number of results"@,
            CallError::ConcurrencyDisabled =>
                "cannot use `call_concurrent` Config::concurrency_support disabled"@,
            CallError::Cancelled(_) => "guest task was cancelled"@,
            CallError::TaskRemoved => "guest task was removed"@,
            CallError::Trap => "guest task trapped"@,
            CallError::Runtime(_) => "values could not be lowered or lifted"@,
        }
    }

    /// Returns the text that describes the error.
    pub fn message(&self) -> (text: &'static str)
        ensures
            text@ == self.spec_message(),
    {
        match self {
            CallError::ParamCount { .. } => "wrong number of arguments",
            CallError::ResultCount { .. } => "wrong number of results",
            CallError::ConcurrencyDisabled =>
                "cannot use `call_concurrent` Config::concurrency_support disabled",
            CallError::Cancelled(cancelled) => cancelled.message(),
            CallError::TaskRemoved => "guest task was removed",
            CallError::Trap => "guest task trapped",
            CallError::Runtime(_) => "values could not be lowered or lifted",
        }
    }
}

} // verus!
