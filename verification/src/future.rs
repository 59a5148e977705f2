//! The result of advancing a suspendable unit of work by one step.

use vstd::prelude::*;

verus! {

/// Either the awaited value, or the promise that a wake source has been
/// registered and will make the task ready again.
#[derive(Debug, PartialEq, Eq)]
pub enum Poll<T> {
    Ready(T),
    Pending,
}

} // verus!
