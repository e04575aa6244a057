//! Identifiers of stores and of the tasks in them.

use vstd::prelude::*;

verus! {

/// Identifies one store.
#[derive(Debug, Clone, Copy, PartialEq, Eq, Structural)]
pub struct StoreId {
    /// A number that no other store has.
    pub id: u64,
}

/// Identifies one guest task within its store.
#[derive(Debug, Clone, Copy, PartialEq, Eq, Structural)]
pub struct TaskId {
    /// The position of the task in the store's table.
    pub index: usize,
}

/// The diagnostic identifier of a guest task, to be correlated with a call stack.
#[derive(Debug, Clone, Copy, PartialEq, Eq, Structural)]
pub struct GuestTaskId {
    /// The position of the task in the store's table.
    pub index: usize,
}

impl TaskId {
    /// The diagnostic identifier of the task.
    pub open spec fn spec_guest_task_id(self) -> GuestTaskId {
        GuestTaskId { index: self.index }
    }

    /// Returns the diagnostic identifier of the task.
    #[verifier::when_used_as_spec(spec_guest_task_id)]
    pub fn guest_task_id(self) -> (id: GuestTaskId)
        ensures
            id == self.spec_guest_task_id(),
    {
        GuestTaskId { index: self.index }
    }
}

} // verus!
