//! Task handles. A write operation returns a numeric task id; polling the
//! task route yields a two-state status.

use vstd::prelude::*;

verus! {

/// A numeric handle for a server-side task.
#[derive(Copy, Clone, Debug, PartialEq, Eq, Structural)]
pub struct TaskId(pub u64);

/// Whether a task's result has been published.
#[derive(Copy, Clone, Debug, PartialEq, Eq, Structural)]
#[non_exhaustive]
pub enum TaskStatus {
    Published,
    NotPublished,
}

impl TaskStatus {
    /// Whether the task has completed: exactly the published state.
    pub fn completed(self) -> (r: bool)
        ensures
            r == (self is Published),
    {
        matches!(self, TaskStatus::Published)
    }
}

} // verus!
