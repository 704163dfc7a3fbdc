//! The answer of one poll of a task.
use vstd::prelude::*;

verus! {

/// Whether a polled task finished, and with what.
#[derive(Debug)]
pub enum TaskPoll<T> {
    Ready(T),
    Pending,
}

} // verus!
