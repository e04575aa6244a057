//! How the arguments and results of a call travel between host and guest.
//!
//! The canonical ABI flattens component-level values into core values. A few of
//! them go on the stack; beyond a limit they go through memory, and a single core
//! value, the pointer, stands for them.

use crate::func::Func;
use vstd::prelude::*;

verus! {

/// The most flat parameters that a core function takes on the stack.
pub const MAX_FLAT_PARAMS: usize = 16;

/// The most flat results that a core function returns on the stack.
pub const MAX_FLAT_RESULTS: usize = 1;

/// How many core parameters a call passes whose parameters flatten to
/// `flatten_count` values: those values, or one pointer where they are too many.
pub open spec fn spec_flat_param_count(flatten_count: usize) -> usize {
    if flatten_count <= MAX_FLAT_PARAMS {
        flatten_count
    } else {
        1
    }
}

/// Returns how many core parameters a call passes whose parameters flatten to
/// `flatten_count` values.
pub fn flat_param_count(flatten_count: usize) -> (count: usize)
    ensures
        count == spec_flat_param_count(flatten_count),
{
    if flatten_count <= MAX_FLAT_PARAMS {
        flatten_count
    } else {
        1
    }
}

/// The most flat results that arrive on the stack. An async export passes its
/// results as the parameters of `task.return`, so the limit on parameters holds.
pub open spec fn spec_max_flat_results(async_: bool) -> usize {
    if async_ {
        MAX_FLAT_PARAMS
    } else {
        MAX_FLAT_RESULTS
    }
}

/// Returns the most flat results that arrive on the stack.
pub fn max_flat_results(async_: bool) -> (max: usize)
    ensures
        max == spec_max_flat_results(async_),
{
    if async_ {
        MAX_FLAT_PARAMS
    } else {
        MAX_FLAT_RESULTS
    }
}

/// How the results of a call are lifted out of the core values that the guest
/// handed over.
#[derive(Debug, Clone, Copy, PartialEq, Eq, Structural)]
pub enum ResultLift {
    /// The type of the function decides, given the most values that may arrive on
    /// the stack.
    Dynamic { max_flat: usize },
    /// The first `count` core values are the flattened results.
    Stack { count: usize },
    /// The first core value points to the results in memory.
    Heap,
}

/// The core values that lifting reads.
#[derive(Debug, PartialEq, Eq)]
pub enum LiftSource<'a, T> {
    /// All that the guest handed over, and the most values that may be flattened
    /// results.
    Dynamic { values: &'a [T], max_flat: usize },
    /// The flattened results.
    Stack { values: &'a [T] },
    /// The pointer to the results.
    Heap { pointer: &'a T },
}

impl ResultLift {
    /// How the results of a function are lifted whose result type is known and
    /// flattens to `flatten_count` values.
    pub open spec fn spec_typed(flatten_count: usize, async_: bool) -> ResultLift {
        if flatten_count <= spec_max_flat_results(async_) {
            ResultLift::Stack { count: flatten_count }
        } else {
            ResultLift::Heap
        }
    }

    /// Decides how the results of a function are lifted whose result type is known
    /// and flattens to `flatten_count` values.
    pub fn typed(flatten_count: usize, async_: bool) -> (lift: ResultLift)
        ensures
            lift == Self::spec_typed(flatten_count, async_),
    {
        if flatten_count <= max_flat_results(async_) {
            ResultLift::Stack { count: flatten_count }
        } else {
            ResultLift::Heap
        }
    }

    /// Whether this many core values are enough to lift from.
    pub open spec fn spec_suffices(self, values: nat) -> bool {
        match self {
            ResultLift::Dynamic { .. } => true,
            ResultLift::Stack { count } => count <= values,
            ResultLift::Heap => 1 <= values,
        }
    }

    /// Tells whether this many core values are enough to lift from.
    pub fn suffices(&self, values: usize) -> (enough: bool)
        ensures
            enough == self.spec_suffices(values as nat),
    {
        match *self {
            ResultLift::Dynamic { .. } => true,
            ResultLift::Stack { count } => count <= values,
            ResultLift::Heap => 1 <= values,
        }
    }

    /// Picks the core values that lifting reads out of those that the guest handed
    /// over. There may be more of them than the results need.
    pub fn select<'a, T>(&self, values: &'a [T]) -> (source: LiftSource<'a, T>)
        requires
            self.spec_suffices(values@.len()),
        ensures
            match *self {
                ResultLift::Dynamic { max_flat } => source matches LiftSource::Dynamic {
                    values: all,
                    max_flat: max,
                } && all@ == values@ && max == max_flat,
                ResultLift::Stack { count } => source matches LiftSource::Stack { values: flat }
                    && flat@ == values@.take(count as int),
                ResultLift::Heap => source matches LiftSource::Heap { pointer }
                    && *pointer == values@[0],
            },
    {
        match *self {
            ResultLift::Dynamic { max_flat } => LiftSource::Dynamic { values, max_flat },
            ResultLift::Stack { count } => LiftSource::Stack {
                values: vstd::slice::slice_subrange(values, 0, count),
            },
            ResultLift::Heap => LiftSource::Heap { pointer: &values[0] },
        }
    }
}

/// What a call was prepared with.
#[derive(Debug, Clone, Copy, PartialEq, Eq, Structural)]
pub struct CallPlan {
    /// The function that is called.
    pub func: Func,
    /// How many core parameters there is room for when the arguments are lowered.
    pub param_count: usize,
    /// Whether the arguments live in a future of the host, which may be dropped.
    pub host_future_present: bool,
    /// How the results are lifted.
    pub lift: ResultLift,
}

} // verus!
