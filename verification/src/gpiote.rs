//! Edge-triggered input channels: a task waits until a pin is at a level.

use vstd::prelude::*;
use crate::fault::Fault;
use crate::future::Poll;
use crate::scheduler::{Scheduler, SchedulerView};

verus! {

/// How many hardware edge-detect channels there are to claim.
pub const MAX_CHANNELS_USED: usize = 2;

/// The logic level of a pin.
#[derive(Clone, Copy, Debug, PartialEq, Eq, Structural)]
pub enum PinState {
    Low,
    High,
}

/// What all input channels share: the number of the channel that is claimed
/// next, and for each channel the task to wake at its next edge.
pub struct InputChannels {
    pub next_channel: usize,
    pub wake_tasks: [Option<usize>; 2],
}

impl InputChannels {
    /// No channel claimed, no task waiting.
    pub fn new() -> (c: InputChannels)
        ensures
            c.next_channel == 0,
            c.wake_tasks@ == seq![None::<usize>, None::<usize>],
    {
        InputChannels { next_channel: 0, wake_tasks: [None, None] }
    }
}

/// One claimed edge-detect channel and the level that its task waits for.
#[derive(Clone, Copy, Debug, PartialEq, Eq, Structural)]
pub struct InputChannel {
    pub channel_id: usize,
    pub ready_state: PinState,
}

impl InputChannel {
    /// The channel is one of those that the hardware has.
    pub open spec fn wf(&self) -> bool {
        self.channel_id < MAX_CHANNELS_USED
    }

    /// Claims the next free edge-detect channel; it waits for a low level.
    ///
    /// Channels are handed out in ascending order and never returned. Once all
    /// of them are claimed, a further claim is a configuration fault and
    /// changes nothing.
    pub fn new(scheduler: &mut Scheduler) -> (r: Result<InputChannel, Fault>)
        ensures
            r == (if old(scheduler)@.next_channel < MAX_CHANNELS_USED {
                Ok(InputChannel { channel_id: old(scheduler)@.next_channel, ready_state: PinState::Low })
            } else {
                Err(Fault::InputChannelsExhausted)
            }),
            final(scheduler)@ == old(scheduler)@.claim_channel(),
            r is Ok ==> r->Ok_0.wf(),
    {
        let channel_id = scheduler.inputs.next_channel;
        if channel_id < MAX_CHANNELS_USED {
            scheduler.inputs.next_channel = channel_id + 1;
            Ok(InputChannel { channel_id, ready_state: PinState::Low })
        } else {
            Err(Fault::InputChannelsExhausted)
        }
    }

    /// Sets the level that counts as ready from now on.
    pub fn set_ready_state(&mut self, ready_state: PinState)
        ensures
            final(self).ready_state == ready_state,
            final(self).channel_id == old(self).channel_id,
    {
        self.ready_state = ready_state;
    }

    /// The scheduler after a poll by `task_id` while the pin is at `level`:
    /// unless the pin is at the awaited level, the task is recorded as the one
    /// to wake at the next edge on this channel.
    pub open spec fn scheduler_after_poll(self, s: SchedulerView, task_id: usize, level: PinState) -> SchedulerView {
        if self.ready_state == level {
            s
        } else {
            s.await_edge(self.channel_id as int, task_id)
        }
    }

    /// Advances the wait by one step on behalf of `task_id`, the pin being at
    /// `level`.
    ///
    /// Ready at once if the pin is at the awaited level, which covers a level
    /// that was reached before the task came to wait for it. Otherwise the task
    /// is recorded in the wake slot of the channel and the poll is pending.
    pub fn poll(&mut self, task_id: usize, level: PinState, scheduler: &mut Scheduler) -> (r: Poll<()>)
        requires
            old(self).wf(),
        ensures
            *final(self) == *old(self),
            r == (if old(self).ready_state == level { Poll::Ready(()) } else { Poll::Pending }),
            final(scheduler)@ == old(self).scheduler_after_poll(old(scheduler)@, task_id, level),
            r is Pending ==> final(scheduler)@.wake_tasks[old(self).channel_id as int] == Some(task_id),
    {
        let at_level = match (self.ready_state, level) {
            (PinState::Low, PinState::Low) => true,
            (PinState::High, PinState::High) => true,
            _ => false,
        };
        if at_level {
            return Poll::Ready(());
        }
        scheduler.inputs.wake_tasks[self.channel_id] = Some(task_id);
        Poll::Pending
    }
}

} // verus!
