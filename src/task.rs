//! The outcome of advancing a poll-driven task.
use vstd::prelude::*;

verus! {

/// What a task reports each time it is advanced: not finished yet, or finished with a value.
///
/// A task that reported `Pending` is advanced again only after its waiter was woken; one that
/// reported `Ready` is never advanced again.
#[derive(Debug, PartialEq, Eq, Structural)]
pub enum Conclusion<T> {
    Pending,
    Ready(T),
}

/// Identifies the task to wake when what it waits for has arrived.
pub type Waiter = u64;

} // verus!
