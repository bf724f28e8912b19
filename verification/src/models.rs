use vstd::prelude::*;

verus! {

/// How urgent a task is.
#[derive(Clone, Copy, Debug, PartialEq, Eq, Structural)]
pub enum Priority {
    Low,
    Medium,
    High,
}

impl Default for Priority {
    /// A task that names no priority is of low priority.
    fn default() -> (p: Priority)
        ensures
            p == Priority::Low,
    {
        Priority::Low
    }
}

/// One task of the list.
#[derive(Clone, Debug)]
pub struct Todo {
    pub id: u32,
    pub text: String,
    pub done: bool,
    pub priority: Priority,
}

} // verus!
