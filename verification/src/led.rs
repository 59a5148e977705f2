//! The LED task: it blinks the active column of the display and moves the
//! active column when a button direction arrives.
//!
//! The task has one blink timer at a time. A direction that arrives while
//! the timer runs moves the active column and leaves the timer running, so
//! the task never has more than one deadline outstanding.

use vstd::prelude::*;
use vstd::multiset::Multiset;
use crate::button::ButtonDirection;
use crate::channel::{Channel, ReceiveState, Receiver};
use crate::deadline::{holds_at_most_one_for, holds_none_for, holds_only, lemma_filing_adds_one_pair, none_due_for};
use crate::fault::Fault;
use crate::future::Poll;
use crate::scheduler::{Scheduler, SchedulerView};
use crate::time::{ends_in_range, Timer, TimerState};

verus! {

/// The number of LED columns.
pub const NUM_COLS: usize = 5;

/// The time between two toggles of the active column, in milliseconds.
pub const BLINK_MILLIS: u64 = 500;

/// Where the LED task stands in its protocol.
#[derive(Clone, Copy, Debug, PartialEq, Eq, Structural)]
pub enum LedState {
    /// The active column is toggled next.
    Toggle,
    /// Waiting for the blink timer or for a button direction.
    Wait(Timer),
}

/// The LED task. `col` holds the level that each column output is to have,
/// `true` for high; the caller writes the levels to the pins after a poll.
pub struct LedTask {
    pub col: [bool; 5],
    pub active_col: usize,
    pub state: LedState,
    pub receiver: Receiver<ButtonDirection>,
}

/// What a [`LedTask`] holds, as plain mathematical values.
#[verifier::ext_equal]
pub struct LedView {
    /// The level of each column output, `true` for high.
    pub col: Seq<bool>,
    /// The column that blinks.
    pub active_col: usize,
    pub state: LedState,
    /// The state of the receiving end of the channel.
    pub receiver: ReceiveState,
}

/// What a poll of the LED task leaves behind and returns.
pub struct LedOutcome {
    pub led: LedView,
    pub channel: Channel<ButtonDirection>,
    pub scheduler: SchedulerView,
    pub result: Result<Poll<()>, Fault>,
}

/// The column that becomes active when the active column `col` is shifted in
/// `direction`: one to the left or one to the right, around the ends.
pub open spec fn shifted_col(col: usize, direction: ButtonDirection) -> usize {
    match direction {
        ButtonDirection::Left => ((col + NUM_COLS - 1) % (NUM_COLS as int)) as usize,
        ButtonDirection::Right => ((col + 1) % (NUM_COLS as int)) as usize,
    }
}

impl View for LedTask {
    type V = LedView;

    open spec fn view(&self) -> LedView {
        LedView { col: self.col@, active_col: self.active_col, state: self.state, receiver: self.receiver.state }
    }
}

impl LedView {
    /// After the level of the active column was inverted.
    pub open spec fn toggled(self) -> LedView {
        LedView { col: self.col.update(self.active_col as int, !self.col[self.active_col as int]), ..self }
    }

    /// After a shift in `direction`: the column that was active is set high,
    /// its neighbour in that direction becomes active and is set high too.
    pub open spec fn shifted(self, direction: ButtonDirection) -> LedView {
        LedView {
            col: self.col.update(self.active_col as int, true).update(
                shifted_col(self.active_col, direction) as int,
                true,
            ),
            active_col: shifted_col(self.active_col, direction),
            ..self
        }
    }

    /// How many states a poll can still pass through from this one.
    pub open spec fn rank(self) -> nat {
        match self.state {
            LedState::Wait(timer) => if timer.state == TimerState::Wait { 2 } else { 0 },
            LedState::Toggle => 1,
        }
    }

    /// The deadlines of `task_id` in `m` are those that the state of the task
    /// accounts for: none before the blink timer has filed its deadline,
    /// afterwards at most the pair of that timer, once.
    pub open spec fn accounts_for(self, m: Multiset<(u64, usize)>, task_id: usize) -> bool {
        match self.state {
            LedState::Wait(timer) => if timer.state == TimerState::Wait {
                holds_only(m, task_id, timer.end_time)
            } else {
                holds_none_for(m, task_id)
            },
            LedState::Toggle => holds_none_for(m, task_id),
        }
    }

    /// What a poll by `task_id` does at tick `now`. The poll goes from state
    /// to state for as long as the awaited condition holds already:
    ///
    /// - to toggle is to invert the active column and to start the blink
    ///   timer;
    /// - waiting, the timer is polled first, and its end leads on to the
    ///   next toggle; else the channel is polled, and a direction that has
    ///   arrived shifts the active column. Either way the task goes on
    ///   waiting for the timer that runs.
    ///
    /// A fault ends the poll in the state in which it was met.
    pub open spec fn poll_outcome(
        self,
        channel: Channel<ButtonDirection>,
        s: SchedulerView,
        task_id: usize,
        now: u64,
    ) -> LedOutcome
        decreases self.rank(),
    {
        match self.state {
            LedState::Toggle => (LedView {
                state: LedState::Wait(Timer::started(now, BLINK_MILLIS)),
                ..self.toggled()
            }).poll_outcome(channel, s, task_id, now),
            LedState::Wait(timer) => {
                let polled = LedView { state: LedState::Wait(timer.after_poll(s, task_id, now)), ..self };
                let scheduler = timer.scheduler_after_poll(s, task_id, now);
                match timer.poll_result(s, task_id, now) {
                    Err(fault) => LedOutcome { led: polled, channel, scheduler, result: Err(fault) },
                    Ok(Poll::Ready(())) => (LedView { state: LedState::Toggle, ..polled }).poll_outcome(
                        channel,
                        scheduler,
                        task_id,
                        now,
                    ),
                    Ok(Poll::Pending) => {
                        let receiver = Receiver::<ButtonDirection> {
                            state: self.receiver,
                            marker: core::marker::PhantomData,
                        };
                        let listening = LedView { receiver: ReceiveState::Wait, ..polled };
                        let polled_channel = receiver.channel_after_poll(channel, task_id);
                        LedOutcome {
                            led: match receiver.poll_result(channel) {
                                Poll::Ready(direction) => listening.shifted(direction),
                                Poll::Pending => listening,
                            },
                            channel: polled_channel,
                            scheduler,
                            result: Ok(Poll::Pending),
                        }
                    },
                }
            },
        }
    }
}

impl LedTask {
    /// The active column is one of the columns.
    pub open spec fn wf(&self) -> bool {
        self.active_col < NUM_COLS
    }

    /// The LED task at boot: column 0 is active and is toggled at the first
    /// poll. `col` holds the levels that the column outputs have.
    pub fn new(col: [bool; 5], receiver: Receiver<ButtonDirection>) -> (led: LedTask)
        ensures
            led@ == (LedView { col: col@, active_col: 0, state: LedState::Toggle, receiver: receiver.state }),
            led.wf(),
    {
        LedTask { col, active_col: 0, state: LedState::Toggle, receiver }
    }

    /// Moves the active column one place in `direction`, around the ends;
    /// the column that was active and the one that becomes active are set high.
    pub fn shift(&mut self, direction: ButtonDirection)
        requires
            old(self).wf(),
        ensures
            final(self)@ == old(self)@.shifted(direction),
            final(self).wf(),
    {
        self.col[self.active_col] = true;
        self.active_col = match direction {
            ButtonDirection::Left => if self.active_col == 0 {
                NUM_COLS - 1
            } else {
                self.active_col - 1
            },
            ButtonDirection::Right => (self.active_col + 1) % NUM_COLS,
        };
        self.col[self.active_col] = true;
    }

    /// Inverts the level of the active column.
    pub fn toggle(&mut self)
        requires
            old(self).wf(),
        ensures
            final(self)@ == old(self)@.toggled(),
            final(self).wf(),
    {
        self.col[self.active_col] = !self.col[self.active_col];
    }

    /// Advances the LED task by one step; see [`LedView::poll_outcome`] for
    /// what the step does. The task never finishes: a poll that meets no fault
    /// is pending.
    ///
    /// The task keeps to one deadline at a time: if the deadlines of the task
    /// in the queue are those that its state accounts for and none of them is
    /// due, it has at most one outstanding afterwards.
    ///
    /// The tick count has to leave room for the end of a blink timer.
    pub fn poll(
        &mut self,
        task_id: usize,
        now: u64,
        channel: &mut Channel<ButtonDirection>,
        scheduler: &mut Scheduler,
    ) -> (r: Result<Poll<()>, Fault>)
        requires
            old(self).wf(),
            ends_in_range(now, BLINK_MILLIS),
        ensures
            final(self)@ == old(self)@.poll_outcome(*old(channel), old(scheduler)@, task_id, now).led,
            *final(channel) == old(self)@.poll_outcome(*old(channel), old(scheduler)@, task_id, now).channel,
            final(scheduler)@ == old(self)@.poll_outcome(*old(channel), old(scheduler)@, task_id, now).scheduler,
            r == old(self)@.poll_outcome(*old(channel), old(scheduler)@, task_id, now).result,
            final(self).wf(),
            r is Ok ==> r->Ok_0 is Pending,
            old(self)@.accounts_for(old(scheduler)@.deadlines, task_id) && none_due_for(
                old(scheduler)@.deadlines,
                task_id,
                now,
            ) ==> holds_at_most_one_for(final(scheduler)@.deadlines, task_id) && (r is Ok ==> final(self)@.accounts_for(
                final(scheduler)@.deadlines,
                task_id,
            )),
    {
        let ghost goal = old(self)@.poll_outcome(*old(channel), old(scheduler)@, task_id, now);
        proof {
            if old(self)@.accounts_for(old(scheduler)@.deadlines, task_id) && none_due_for(
                old(scheduler)@.deadlines,
                task_id,
                now,
            ) {
                lemma_led_keeps_one_deadline(old(self)@, *old(channel), old(scheduler)@, task_id, now);
            }
        }
        loop
            invariant
                self.wf(),
                ends_in_range(now, BLINK_MILLIS),
                goal == old(self)@.poll_outcome(*old(channel), old(scheduler)@, task_id, now),
                self@.poll_outcome(*channel, scheduler@, task_id, now) == goal,
                old(self)@.accounts_for(old(scheduler)@.deadlines, task_id) && none_due_for(
                    old(scheduler)@.deadlines,
                    task_id,
                    now,
                ) ==> holds_at_most_one_for(goal.scheduler.deadlines, task_id) && (goal.result is Ok
                    ==> goal.led.accounts_for(goal.scheduler.deadlines, task_id)),
            decreases self@.rank(),
        {
            match self.state {
                LedState::Toggle => {
                    self.toggle();
                    self.state = LedState::Wait(Timer::after_millis(now, BLINK_MILLIS));
                },
                LedState::Wait(timer) => {
                    let mut timer = timer;
                    let polled = timer.poll(task_id, now, scheduler);
                    self.state = LedState::Wait(timer);
                    match polled {
                        Err(fault) => {
                            return Err(fault);
                        },
                        Ok(Poll::Ready(())) => {
                            self.state = LedState::Toggle;
                        },
                        Ok(Poll::Pending) => {
                            match self.receiver.poll(task_id, channel) {
                                Poll::Ready(direction) => {
                                    self.shift(direction);
                                },
                                Poll::Pending => {},
                            }
                            return Ok(Poll::Pending);
                        },
                    }
                },
            }
        }
    }
}

/// Registered before pending: a poll that ends without a fault leaves the
/// LED task waiting with both of its wake sources in place: the blink timer
/// has filed its deadline and the receiver has registered with the channel.
pub proof fn lemma_pending_led_has_wake_sources(
    led: LedView,
    channel: Channel<ButtonDirection>,
    s: SchedulerView,
    task_id: usize,
    now: u64,
)
    requires
        led.poll_outcome(channel, s, task_id, now).result is Ok,
    ensures
        led.poll_outcome(channel, s, task_id, now).led.state matches LedState::Wait(timer) && timer.state
            == TimerState::Wait,
        led.poll_outcome(channel, s, task_id, now).led.receiver == ReceiveState::Wait,
        led.receiver == ReceiveState::Init ==> led.poll_outcome(channel, s, task_id, now).channel.task_id == Some(
            task_id,
        ),
    decreases led.rank(),
{
    match led.state {
        LedState::Toggle => {
            lemma_pending_led_has_wake_sources(
                LedView { state: LedState::Wait(Timer::started(now, BLINK_MILLIS)), ..led.toggled() },
                channel,
                s,
                task_id,
                now,
            );
        },
        LedState::Wait(timer) => {
            if timer.poll_result(s, task_id, now) == Ok::<Poll<()>, Fault>(Poll::Ready(())) {
                lemma_pending_led_has_wake_sources(
                    LedView { state: LedState::Toggle, ..led },
                    channel,
                    s,
                    task_id,
                    now,
                );
            }
        },
    }
}

/// One deadline per task: if the deadlines of the task in the queue are
/// those that the state of the LED task accounts for, and none of them is
/// due, then after a poll the task has at most one deadline outstanding, and
/// unless the poll met a fault the state accounts for it again. A direction
/// that arrives while the blink timer runs files nothing.
///
/// Both conditions hold when the task is first polled, with no deadline
/// filed. From then on every poll restores the first, as this law says, and
/// no service or filing by another task undoes it; the second holds because
/// the timer interrupt serves a deadline when it falls due, before the
/// executor polls with a tick count at or after it.
pub proof fn lemma_led_keeps_one_deadline(
    led: LedView,
    channel: Channel<ButtonDirection>,
    s: SchedulerView,
    task_id: usize,
    now: u64,
)
    requires
        led.accounts_for(s.deadlines, task_id),
        none_due_for(s.deadlines, task_id, now),
    ensures
        holds_at_most_one_for(led.poll_outcome(channel, s, task_id, now).scheduler.deadlines, task_id),
        led.poll_outcome(channel, s, task_id, now).result is Ok ==> led.poll_outcome(
            channel,
            s,
            task_id,
            now,
        ).led.accounts_for(led.poll_outcome(channel, s, task_id, now).scheduler.deadlines, task_id),
    decreases led.rank(),
{
    match led.state {
        LedState::Toggle => {
            lemma_led_keeps_one_deadline(
                LedView { state: LedState::Wait(Timer::started(now, BLINK_MILLIS)), ..led.toggled() },
                channel,
                s,
                task_id,
                now,
            );
        },
        LedState::Wait(timer) => {
            match timer.state {
                TimerState::Init => {
                    lemma_filing_adds_one_pair(s.deadlines, s.ready.len(), timer.end_time, task_id, now);
                },
                TimerState::Wait => {
                    if now >= timer.end_time {
                        lemma_led_keeps_one_deadline(
                            LedView { state: LedState::Toggle, ..led },
                            channel,
                            s,
                            task_id,
                            now,
                        );
                    }
                },
            }
        },
    }
}

} // verus!
