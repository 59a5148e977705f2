//! The scheduler context: everything that tasks and interrupt handlers share.
//!
//! There is one scheduler per system. It is built once and handed by
//! reference to every component; whoever holds the reference has the
//! scheduler to itself, as code inside a critical section has.

use vstd::prelude::*;
use vstd::multiset::Multiset;
use crate::deadline::{
    compare_after_filing, compare_after_service, deadlines_after_filing, deadlines_after_service,
    filing_result, ready_after_filing, ready_after_service, service_result, Compare, DeadlineQueue,
};
use crate::executor::{wake_result, wake_task, woken, ReadyQueue, READY_CAPACITY};
use crate::fault::Fault;
use crate::gpiote::{InputChannels, MAX_CHANNELS_USED};
use crate::time::{tick_of, Ticker};

verus! {

/// The state shared between tasks and interrupt handlers.
pub struct Scheduler {
    pub ticker: Ticker,
    pub ready: ReadyQueue,
    pub deadlines: DeadlineQueue,
    pub inputs: InputChannels,
}

/// What a [`Scheduler`] holds, as plain mathematical values.
#[verifier::ext_equal]
pub struct SchedulerView {
    /// How often the hardware counter has overflowed.
    pub ovf_count: u32,
    /// The ready queue, the task that runs next at index 0.
    pub ready: Seq<usize>,
    /// The outstanding `(deadline, task id)` pairs.
    pub deadlines: Multiset<(u64, usize)>,
    /// The setting of the compare interrupt.
    pub compare: Compare,
    /// The number of the input channel that is claimed next.
    pub next_channel: usize,
    /// For each input channel the task to wake at its next edge.
    pub wake_tasks: Seq<Option<usize>>,
}

impl View for Scheduler {
    type V = SchedulerView;

    open spec fn view(&self) -> SchedulerView {
        SchedulerView {
            ovf_count: self.ticker.ovf_count,
            ready: self.ready@,
            deadlines: self.deadlines@,
            compare: self.deadlines.armed(),
            next_channel: self.inputs.next_channel,
            wake_tasks: self.inputs.wake_tasks@,
        }
    }
}

impl SchedulerView {
    /// After `task_id` was to be made ready.
    pub open spec fn wake(self, task_id: usize) -> SchedulerView {
        SchedulerView { ready: woken(self.ready, task_id), ..self }
    }

    /// What making a task ready returns: a fault if the ready queue is full.
    pub open spec fn wake_result(self) -> Result<(), Fault> {
        wake_result(self.ready)
    }

    /// After the deadline queue was served at tick `now`.
    pub open spec fn serve(self, now: u64) -> SchedulerView {
        SchedulerView {
            ready: ready_after_service(self.deadlines, self.ready, now),
            deadlines: deadlines_after_service(self.deadlines, self.ready.len(), now),
            compare: compare_after_service(self.deadlines, self.compare, self.ready.len(), now),
            ..self
        }
    }

    /// What serving the deadline queue at tick `now` returns.
    pub open spec fn serve_result(self, now: u64) -> Result<(), Fault> {
        service_result(self.deadlines, self.ready.len(), now)
    }

    /// After `(deadline, task_id)` was to be filed at tick `now`.
    pub open spec fn file(self, deadline: u64, task_id: usize, now: u64) -> SchedulerView {
        SchedulerView {
            ready: ready_after_filing(self.deadlines, self.ready, deadline, task_id, now),
            deadlines: deadlines_after_filing(self.deadlines, self.ready.len(), deadline, task_id, now),
            compare: compare_after_filing(self.deadlines, self.compare, self.ready.len(), deadline, task_id, now),
            ..self
        }
    }

    /// What filing `(deadline, task_id)` at tick `now` returns.
    pub open spec fn file_result(self, deadline: u64, task_id: usize, now: u64) -> Result<(), Fault> {
        filing_result(self.deadlines, self.ready.len(), deadline, task_id, now)
    }

    /// After the task at the front of the ready queue was taken off it.
    pub open spec fn dequeued(self) -> SchedulerView {
        SchedulerView { ready: self.ready.skip(1), ..self }
    }

    /// After an input channel was to be claimed.
    pub open spec fn claim_channel(self) -> SchedulerView {
        if self.next_channel < MAX_CHANNELS_USED {
            SchedulerView { next_channel: (self.next_channel + 1) as usize, ..self }
        } else {
            self
        }
    }

    /// After `task_id` was recorded as the task to wake at the next edge on
    /// `channel`.
    pub open spec fn await_edge(self, channel: int, task_id: usize) -> SchedulerView {
        SchedulerView { wake_tasks: self.wake_tasks.update(channel, Some(task_id)), ..self }
    }

    /// An edge on `channel` meets a waiting task and a full ready queue.
    pub open spec fn edge_faults(self, channel: int) -> bool {
        self.wake_tasks[channel] is Some && self.ready.len() >= READY_CAPACITY
    }

    /// After an edge on `channel`: the waiting task, if there is one, is made
    /// ready and the wake slot is emptied. If the ready queue is full, the
    /// task stays in its slot.
    pub open spec fn edge(self, channel: int) -> SchedulerView {
        match self.wake_tasks[channel] {
            Some(task_id) => if self.ready.len() < READY_CAPACITY {
                SchedulerView {
                    ready: self.ready.push(task_id),
                    wake_tasks: self.wake_tasks.update(channel, None),
                    ..self
                }
            } else {
                self
            },
            None => self,
        }
    }

    /// After the edges flagged in `events` were handled on the channels below
    /// `upto`, in ascending order, up to the first fault; and whether there
    /// was one.
    pub open spec fn edges(self, events: Seq<bool>, upto: int) -> (SchedulerView, bool)
        decreases upto,
    {
        if upto <= 0 {
            (self, false)
        } else {
            let (before, fault) = self.edges(events, upto - 1);
            if fault || !events[upto - 1] {
                (before, fault)
            } else {
                (before.edge(upto - 1), before.edge_faults(upto - 1))
            }
        }
    }

    /// After one more overflow of the hardware counter, if there was one.
    pub open spec fn overflow(self, overflowed: bool) -> SchedulerView {
        if overflowed {
            SchedulerView {
                ovf_count: (Ticker { ovf_count: self.ovf_count }).next_ovf_count(),
                ..self
            }
        } else {
            self
        }
    }
}

impl Scheduler {
    /// A scheduler at boot: no overflow seen, nothing ready, no deadline, the
    /// compare interrupt off, no input channel claimed.
    pub fn new() -> (s: Scheduler)
        ensures
            s@.ovf_count == 0,
            s@.ready == Seq::<usize>::empty(),
            s@.deadlines == Multiset::<(u64, usize)>::empty(),
            s@.compare == Compare::Disabled,
            s@.next_channel == 0,
            s@.wake_tasks == seq![None::<usize>, None::<usize>],
    {
        Scheduler {
            ticker: Ticker::init(),
            ready: ReadyQueue::new(),
            deadlines: DeadlineQueue::new(),
            inputs: InputChannels::new(),
        }
    }

    /// Marks a task ready, see [`wake_task`].
    pub fn wake(&mut self, task_id: usize) -> (r: Result<(), Fault>)
        ensures
            final(self)@ == old(self)@.wake(task_id),
            r == old(self)@.wake_result(),
    {
        wake_task(&mut self.ready, task_id)
    }

    /// Serves the deadline queue at tick `now`, see
    /// [`DeadlineQueue::schedule_wakeup`].
    pub fn schedule_wakeup(&mut self, now: u64) -> (r: Result<(), Fault>)
        ensures
            final(self)@ == old(self)@.serve(now),
            r == old(self)@.serve_result(now),
    {
        self.deadlines.schedule_wakeup(now, &mut self.ready)
    }

    /// Files a deadline for `task_id`, see [`DeadlineQueue::register`].
    pub fn register(&mut self, deadline: u64, task_id: usize, now: u64) -> (r: Result<(), Fault>)
        ensures
            final(self)@ == old(self)@.file(deadline, task_id, now),
            r == old(self)@.file_result(deadline, task_id, now),
    {
        self.deadlines.register(deadline, task_id, now, &mut self.ready)
    }

    /// The work of the timer interrupt.
    ///
    /// `overflowed` says whether the overflow event was raised, `counter` is
    /// the reading of the hardware counter. An overflow is counted first, then
    /// the deadline queue is served at the tick count that results.
    pub fn handle_timer_interrupt(&mut self, overflowed: bool, counter: u32) -> (r: Result<(), Fault>)
        ensures
            final(self)@ == old(self)@.overflow(overflowed).serve(
                tick_of(old(self)@.overflow(overflowed).ovf_count, counter),
            ),
            r == old(self)@.overflow(overflowed).serve_result(
                tick_of(old(self)@.overflow(overflowed).ovf_count, counter),
            ),
    {
        if overflowed {
            self.ticker.handle_overflow();
        }
        let now = self.ticker.tick_at(counter);
        self.schedule_wakeup(now)
    }

    /// The work of the edge interrupt.
    ///
    /// `events` holds for each input channel whether its event was raised.
    /// For each raised event, in ascending order of the channels, the task in
    /// the wake slot is made ready and the slot is emptied; an event on a
    /// channel without a waiting task is dropped. A full ready queue stops the
    /// work with a fault and leaves the task in its slot.
    pub fn handle_input_interrupt(&mut self, events: [bool; 2]) -> (r: Result<(), Fault>)
        ensures
            final(self)@ == old(self)@.edges(events@, MAX_CHANNELS_USED as int).0,
            r == (if old(self)@.edges(events@, MAX_CHANNELS_USED as int).1 {
                Err::<(), Fault>(Fault::ReadyQueueFull)
            } else {
                Ok::<(), Fault>(())
            }),
    {
        let mut channel: usize = 0;
        while channel < MAX_CHANNELS_USED
            invariant
                channel <= MAX_CHANNELS_USED,
                self@ == old(self)@.edges(events@, channel as int).0,
                !old(self)@.edges(events@, channel as int).1,
            decreases MAX_CHANNELS_USED - channel,
        {
            if events[channel] {
                match self.inputs.wake_tasks[channel] {
                    Some(task_id) => {
                        match wake_task(&mut self.ready, task_id) {
                            Err(fault) => {
                                assert(old(self)@.edges(events@, MAX_CHANNELS_USED as int).1
                                    && old(self)@.edges(events@, MAX_CHANNELS_USED as int).0 =~= self@) by {
                                    reveal_with_fuel(SchedulerView::edges, 3);
                                }
                                return Err(fault);
                            },
                            Ok(()) => {},
                        }
                        self.inputs.wake_tasks[channel] = None;
                    },
                    None => {},
                }
            }
            channel = channel + 1;
        }
        Ok(())
    }
}

/// No lost wakeup, for edges: once a task is recorded in the wake slot of a
/// channel, the next edge on that channel makes it ready exactly once, given
/// room in the ready queue, and empties the slot, so that a further edge
/// wakes nobody.
pub proof fn lemma_edge_wakes_waiting_task(s: SchedulerView, channel: int, task_id: usize)
    requires
        0 <= channel < s.wake_tasks.len(),
        s.ready.len() < READY_CAPACITY,
    ensures
        !s.await_edge(channel, task_id).edge_faults(channel),
        s.await_edge(channel, task_id).edge(channel).ready == s.ready.push(task_id),
        s.await_edge(channel, task_id).edge(channel).wake_tasks[channel] is None,
        s.await_edge(channel, task_id).edge(channel).edge(channel) == s.await_edge(channel, task_id).edge(channel),
{
}

} // verus!
