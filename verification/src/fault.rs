//! Configuration faults: the static budget of tasks and wake sources was exceeded.

use vstd::prelude::*;

verus! {

/// A fault that cannot be recovered from. The function that meets one stops at
/// once and hands it back; nothing is dropped silently, and the caller halts.
#[derive(Clone, Copy, Debug, PartialEq, Eq, Structural)]
pub enum Fault {
    /// A task was to be made ready while the ready queue held its full capacity.
    ReadyQueueFull,
    /// A deadline was to be filed while the deadline queue held its full capacity.
    DeadlineQueueFull,
    /// An input channel was asked for after every hardware edge channel was claimed.
    InputChannelsExhausted,
}

} // verus!
