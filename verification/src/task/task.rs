//! The task control block.
use super::context::TaskContext;
use vstd::prelude::*;

verus! {

/// Where a task stands in its life.
#[derive(Copy, Clone, Debug, Eq, PartialEq, Structural)]
pub enum TaskStatus {
    /// The slot holds no task.
    UnInit,
    /// The task waits for the processor.
    Ready,
    /// The task has the processor.
    Running,
    /// The task has ended; it stays so.
    Finished,
}

/// What the scheduler keeps of one task.
#[derive(Copy, Clone)]
pub struct TaskControlBlock {
    pub task_status: TaskStatus,
    pub task_cx: TaskContext,
}

} // verus!
