//! The button task: it reports a press once the pin has stayed low for the
//! debounce interval, then waits for the release.

use vstd::prelude::*;
use crate::channel::{Channel, Sender};
use crate::deadline::{holds_at_most_one_for, holds_none_for, lemma_filing_adds_one_pair};
use crate::fault::Fault;
use crate::future::Poll;
use crate::gpiote::{InputChannel, PinState};
use crate::scheduler::{Scheduler, SchedulerView};
use crate::time::{ends_in_range, Timer, TimerState};

verus! {

/// How long the pin has to stay low for a press to count, in milliseconds.
pub const DEBOUNCE_MILLIS: u64 = 100;

/// The side a button stands for; the payload that travels through the channel.
#[derive(Clone, Copy, Debug, PartialEq, Eq, Structural)]
pub enum ButtonDirection {
    Left,
    Right,
}

/// Where a button task stands in its protocol. The pin is low while the
/// button is held down.
#[derive(Clone, Copy, Debug, PartialEq, Eq, Structural)]
pub enum ButtonState {
    /// Waiting for the pin to be low.
    WaitForPress,
    /// Waiting for the pin to be high again.
    WaitForRelease,
    /// The pin was found low; the press counts if it is still low when the
    /// timer ends.
    Debounce(Timer),
}

/// One button: its input channel, the direction it reports, and its state.
pub struct Button {
    pub input: InputChannel,
    pub direction: ButtonDirection,
    pub state: ButtonState,
    pub sender: Sender<ButtonDirection>,
}

/// What a poll of a button leaves behind and returns.
pub struct ButtonOutcome {
    pub button: Button,
    pub channel: Channel<ButtonDirection>,
    pub scheduler: SchedulerView,
    pub result: Result<Poll<()>, Fault>,
}

impl Button {
    /// The input channel is one of those that the hardware has.
    pub open spec fn wf(&self) -> bool {
        self.input.wf()
    }

    /// How many states a poll can still pass through from this one while the
    /// pin is at `level`.
    pub open spec fn rank(self, level: PinState) -> nat {
        match self.state {
            ButtonState::Debounce(timer) => if level == PinState::High {
                2
            } else if timer.state == TimerState::Wait {
                1
            } else {
                0
            },
            ButtonState::WaitForRelease => if level == PinState::High { 1 } else { 0 },
            ButtonState::WaitForPress => if level == PinState::Low { 1 } else { 0 },
        }
    }

    /// The button in another state, its input waiting for another level.
    pub open spec fn moved(self, ready_state: PinState, state: ButtonState) -> Button {
        Button {
            input: InputChannel { channel_id: self.input.channel_id, ready_state },
            direction: self.direction,
            state,
            sender: self.sender,
        }
    }

    /// What a poll by `task_id` does, the pin being at `level` and the tick
    /// count at `now`. The poll goes from state to state for as long as the
    /// awaited condition holds already:
    ///
    /// - waiting for a press, a low pin starts the debounce timer; a high pin
    ///   leaves the task waiting for an edge;
    /// - debouncing, a high pin means that the press did not last: nothing is
    ///   sent and the button waits for a press again. While the pin is low the
    ///   timer is polled, and at its end the press counts: the direction is
    ///   sent through the channel and the button waits for the release;
    /// - waiting for the release, a high pin leads back to waiting for a
    ///   press; a low pin leaves the task waiting for an edge.
    ///
    /// A fault ends the poll in the state in which it was met.
    pub open spec fn poll_outcome(
        self,
        channel: Channel<ButtonDirection>,
        s: SchedulerView,
        task_id: usize,
        level: PinState,
        now: u64,
    ) -> ButtonOutcome
        decreases self.rank(level),
    {
        match self.state {
            ButtonState::WaitForPress => {
                if level == PinState::Low {
                    self.moved(
                        PinState::Low,
                        ButtonState::Debounce(Timer::started(now, DEBOUNCE_MILLIS)),
                    ).poll_outcome(channel, s, task_id, level, now)
                } else {
                    ButtonOutcome {
                        button: self.moved(PinState::Low, ButtonState::WaitForPress),
                        channel,
                        scheduler: s.await_edge(self.input.channel_id as int, task_id),
                        result: Ok(Poll::Pending),
                    }
                }
            },
            ButtonState::Debounce(timer) => {
                if level == PinState::High {
                    self.moved(self.input.ready_state, ButtonState::WaitForPress).poll_outcome(
                        channel,
                        s,
                        task_id,
                        level,
                        now,
                    )
                } else {
                    let polled = self.moved(
                        self.input.ready_state,
                        ButtonState::Debounce(timer.after_poll(s, task_id, now)),
                    );
                    let scheduler = timer.scheduler_after_poll(s, task_id, now);
                    match timer.poll_result(s, task_id, now) {
                        Ok(Poll::Ready(())) => {
                            let sent = channel.sent(self.direction);
                            let woken = SchedulerView { ready: channel.ready_after_send(scheduler.ready), ..scheduler };
                            match channel.send_result(scheduler.ready) {
                                Ok(()) => self.moved(
                                    self.input.ready_state,
                                    ButtonState::WaitForRelease,
                                ).poll_outcome(sent, woken, task_id, level, now),
                                Err(fault) => ButtonOutcome {
                                    button: polled,
                                    channel: sent,
                                    scheduler: woken,
                                    result: Err(fault),
                                },
                            }
                        },
                        Ok(Poll::Pending) => ButtonOutcome {
                            button: polled,
                            channel,
                            scheduler,
                            result: Ok(Poll::Pending),
                        },
                        Err(fault) => ButtonOutcome { button: polled, channel, scheduler, result: Err(fault) },
                    }
                }
            },
            ButtonState::WaitForRelease => {
                if level == PinState::High {
                    self.moved(PinState::High, ButtonState::WaitForPress).poll_outcome(
                        channel,
                        s,
                        task_id,
                        level,
                        now,
                    )
                } else {
                    ButtonOutcome {
                        button: self.moved(PinState::High, ButtonState::WaitForRelease),
                        channel,
                        scheduler: s.await_edge(self.input.channel_id as int, task_id),
                        result: Ok(Poll::Pending),
                    }
                }
            },
        }
    }

    /// A button that reports `direction` and waits for a press. It claims the
    /// next free input channel, see [`InputChannel::new`].
    pub fn new(direction: ButtonDirection, sender: Sender<ButtonDirection>, scheduler: &mut Scheduler) -> (r: Result<
        Button,
        Fault,
    >)
        ensures
            final(scheduler)@ == old(scheduler)@.claim_channel(),
            r is Ok <==> old(scheduler)@.next_channel < crate::gpiote::MAX_CHANNELS_USED,
            r is Err ==> r->Err_0 == Fault::InputChannelsExhausted,
            r is Ok ==> r->Ok_0 == (Button {
                input: InputChannel { channel_id: old(scheduler)@.next_channel, ready_state: PinState::Low },
                direction,
                state: ButtonState::WaitForPress,
                sender,
            }),
            r is Ok ==> r->Ok_0.wf(),
    {
        match InputChannel::new(scheduler) {
            Ok(input) => Ok(Button { input, direction, state: ButtonState::WaitForPress, sender }),
            Err(fault) => Err(fault),
        }
    }

    /// Advances the button task by one step; see [`Button::poll_outcome`] for
    /// what the step does. The task never finishes: a poll that meets no fault
    /// is pending.
    ///
    /// The task keeps to one deadline at a time: polled without a deadline
    /// outstanding, it has at most one afterwards, and that one only while it
    /// debounces.
    ///
    /// The tick count has to leave room for the end of a debounce timer.
    pub fn poll(
        &mut self,
        task_id: usize,
        level: PinState,
        now: u64,
        channel: &mut Channel<ButtonDirection>,
        scheduler: &mut Scheduler,
    ) -> (r: Result<Poll<()>, Fault>)
        requires
            old(self).wf(),
            ends_in_range(now, DEBOUNCE_MILLIS),
        ensures
            *final(self) == old(self).poll_outcome(*old(channel), old(scheduler)@, task_id, level, now).button,
            *final(channel) == old(self).poll_outcome(*old(channel), old(scheduler)@, task_id, level, now).channel,
            final(scheduler)@ == old(self).poll_outcome(*old(channel), old(scheduler)@, task_id, level, now).scheduler,
            r == old(self).poll_outcome(*old(channel), old(scheduler)@, task_id, level, now).result,
            final(self).wf(),
            r is Ok ==> r->Ok_0 is Pending,
            holds_none_for(old(scheduler)@.deadlines, task_id) ==> holds_at_most_one_for(
                final(scheduler)@.deadlines,
                task_id,
            ) && (final(self).state is Debounce || holds_none_for(final(scheduler)@.deadlines, task_id)),
    {
        let ghost goal = old(self).poll_outcome(*old(channel), old(scheduler)@, task_id, level, now);
        proof {
            if holds_none_for(old(scheduler)@.deadlines, task_id) {
                lemma_button_keeps_one_deadline(*old(self), *old(channel), old(scheduler)@, task_id, level, now);
            }
        }
        loop
            invariant
                self.wf(),
                ends_in_range(now, DEBOUNCE_MILLIS),
                goal == old(self).poll_outcome(*old(channel), old(scheduler)@, task_id, level, now),
                self.poll_outcome(*channel, scheduler@, task_id, level, now) == goal,
                holds_none_for(old(scheduler)@.deadlines, task_id) ==> holds_at_most_one_for(
                    goal.scheduler.deadlines,
                    task_id,
                ) && (goal.button.state is Debounce || holds_none_for(goal.scheduler.deadlines, task_id)),
            decreases self.rank(level),
        {
            match self.state {
                ButtonState::WaitForPress => {
                    self.input.set_ready_state(PinState::Low);
                    match self.input.poll(task_id, level, scheduler) {
                        Poll::Ready(()) => {
                            self.state = ButtonState::Debounce(Timer::after_millis(now, DEBOUNCE_MILLIS));
                        },
                        Poll::Pending => {
                            return Ok(Poll::Pending);
                        },
                    }
                },
                ButtonState::Debounce(timer) => {
                    match level {
                        PinState::High => {
                            self.state = ButtonState::WaitForPress;
                        },
                        PinState::Low => {
                            let mut timer = timer;
                            let polled = timer.poll(task_id, now, scheduler);
                            self.state = ButtonState::Debounce(timer);
                            match polled {
                                Ok(Poll::Ready(())) => {
                                    match self.sender.send(channel, self.direction, &mut scheduler.ready) {
                                        Ok(()) => {},
                                        Err(fault) => {
                                            return Err(fault);
                                        },
                                    }
                                    self.state = ButtonState::WaitForRelease;
                                },
                                Ok(Poll::Pending) => {
                                    return Ok(Poll::Pending);
                                },
                                Err(fault) => {
                                    return Err(fault);
                                },
                            }
                        },
                    }
                },
                ButtonState::WaitForRelease => {
                    self.input.set_ready_state(PinState::High);
                    match self.input.poll(task_id, level, scheduler) {
                        Poll::Ready(()) => {
                            self.state = ButtonState::WaitForPress;
                        },
                        Poll::Pending => {
                            return Ok(Poll::Pending);
                        },
                    }
                },
            }
        }
    }
}

/// Debounce, a level that did not last: a poll that finds the pin high
/// before the press has counted sends nothing, whether the timer has ended
/// or not, and leaves the button waiting for a press.
pub proof fn lemma_short_press_sends_nothing(
    button: Button,
    channel: Channel<ButtonDirection>,
    s: SchedulerView,
    task_id: usize,
    now: u64,
)
    requires
        button.state is Debounce || button.state is WaitForPress,
    ensures
        button.poll_outcome(channel, s, task_id, PinState::High, now).channel == channel,
        button.poll_outcome(channel, s, task_id, PinState::High, now).button.state == ButtonState::WaitForPress,
        button.poll_outcome(channel, s, task_id, PinState::High, now).result == Ok::<Poll<()>, Fault>(Poll::Pending),
        button.poll_outcome(channel, s, task_id, PinState::High, now).scheduler == s.await_edge(
            button.input.channel_id as int,
            task_id,
        ),
{
    reveal_with_fuel(Button::poll_outcome, 2);
}

/// Debounce, while the timer runs: a poll before the end of the debounce
/// timer sends nothing and leaves the button and the scheduler as they are.
pub proof fn lemma_running_debounce_sends_nothing(
    button: Button,
    channel: Channel<ButtonDirection>,
    s: SchedulerView,
    task_id: usize,
    now: u64,
)
    requires
        button.state matches ButtonState::Debounce(timer) && timer.state == TimerState::Wait
            && now < timer.end_time,
    ensures
        button.poll_outcome(channel, s, task_id, PinState::Low, now).channel == channel,
        button.poll_outcome(channel, s, task_id, PinState::Low, now).scheduler == s,
        button.poll_outcome(channel, s, task_id, PinState::Low, now).button == button,
        button.poll_outcome(channel, s, task_id, PinState::Low, now).result == Ok::<Poll<()>, Fault>(Poll::Pending),
{
}

/// Debounce, a press: a poll that finds the pin low while waiting for a
/// press sends nothing yet; it starts the debounce timer.
pub proof fn lemma_press_starts_debounce(
    button: Button,
    channel: Channel<ButtonDirection>,
    s: SchedulerView,
    task_id: usize,
    now: u64,
)
    requires
        button.state == ButtonState::WaitForPress,
    ensures
        button.poll_outcome(channel, s, task_id, PinState::Low, now).channel == channel,
        button.poll_outcome(channel, s, task_id, PinState::Low, now).button.state matches ButtonState::Debounce(timer)
            && timer.end_time == Timer::started(now, DEBOUNCE_MILLIS).end_time,
{
    reveal_with_fuel(Button::poll_outcome, 2);
}

/// Debounce, a press that lasted: the poll that finds the pin still low at
/// the end of the debounce timer sends the direction exactly once, and the
/// button waits for the release; provided the send meets no fault.
pub proof fn lemma_stable_press_sends_once(
    button: Button,
    channel: Channel<ButtonDirection>,
    s: SchedulerView,
    task_id: usize,
    now: u64,
)
    requires
        button.state matches ButtonState::Debounce(timer) && timer.state == TimerState::Wait
            && now >= timer.end_time,
        channel.send_result(s.ready) is Ok,
    ensures
        button.poll_outcome(channel, s, task_id, PinState::Low, now).channel == channel.sent(button.direction),
        button.poll_outcome(channel, s, task_id, PinState::Low, now).button.state == ButtonState::WaitForRelease,
        button.poll_outcome(channel, s, task_id, PinState::Low, now).result == Ok::<Poll<()>, Fault>(Poll::Pending),
{
    reveal_with_fuel(Button::poll_outcome, 2);
}

/// Debounce, a held button: while the pin stays low after the press was
/// sent, a poll sends nothing more; the button keeps waiting for the release.
pub proof fn lemma_held_button_sends_nothing(
    button: Button,
    channel: Channel<ButtonDirection>,
    s: SchedulerView,
    task_id: usize,
    now: u64,
)
    requires
        button.state == ButtonState::WaitForRelease,
    ensures
        button.poll_outcome(channel, s, task_id, PinState::Low, now).channel == channel,
        button.poll_outcome(channel, s, task_id, PinState::Low, now).button.state == ButtonState::WaitForRelease,
        button.poll_outcome(channel, s, task_id, PinState::Low, now).result == Ok::<Poll<()>, Fault>(Poll::Pending),
{
}

/// Registered before pending: a poll that ends without a fault leaves the
/// button with a wake source. Waiting for a press or for the release, the
/// task stands in the wake slot of its input channel; debouncing, the timer
/// has filed its deadline.
pub proof fn lemma_pending_button_has_a_wake_source(
    button: Button,
    channel: Channel<ButtonDirection>,
    s: SchedulerView,
    task_id: usize,
    level: PinState,
    now: u64,
)
    requires
        button.input.channel_id < s.wake_tasks.len(),
        button.poll_outcome(channel, s, task_id, level, now).result is Ok,
    ensures
        match button.poll_outcome(channel, s, task_id, level, now).button.state {
            ButtonState::Debounce(timer) => timer.state == TimerState::Wait,
            _ => button.poll_outcome(channel, s, task_id, level, now).scheduler.wake_tasks[button.input.channel_id as int]
                == Some(task_id),
        },
    decreases button.rank(level),
{
    match button.state {
        ButtonState::WaitForPress => {
            if level == PinState::Low {
                lemma_pending_button_has_a_wake_source(
                    button.moved(PinState::Low, ButtonState::Debounce(Timer::started(now, DEBOUNCE_MILLIS))),
                    channel,
                    s,
                    task_id,
                    level,
                    now,
                );
            }
        },
        ButtonState::Debounce(timer) => {
            if level == PinState::High {
                lemma_pending_button_has_a_wake_source(
                    button.moved(button.input.ready_state, ButtonState::WaitForPress),
                    channel,
                    s,
                    task_id,
                    level,
                    now,
                );
            } else if timer.poll_result(s, task_id, now) == Ok::<Poll<()>, Fault>(Poll::Ready(())) {
                let scheduler = timer.scheduler_after_poll(s, task_id, now);
                if channel.send_result(scheduler.ready) is Ok {
                    lemma_pending_button_has_a_wake_source(
                        button.moved(button.input.ready_state, ButtonState::WaitForRelease),
                        channel.sent(button.direction),
                        SchedulerView { ready: channel.ready_after_send(scheduler.ready), ..scheduler },
                        task_id,
                        level,
                        now,
                    );
                }
            }
        },
        ButtonState::WaitForRelease => {
            if level == PinState::High {
                lemma_pending_button_has_a_wake_source(
                    button.moved(PinState::High, ButtonState::WaitForPress),
                    channel,
                    s,
                    task_id,
                    level,
                    now,
                );
            }
        },
    }
}

/// One deadline per task: a button task that has no deadline outstanding
/// when it is polled has at most one afterwards, and that one only while it
/// debounces. While it debounces, the deadline is the only thing that wakes
/// the task, so it is polled again when the deadline has been served and has
/// none outstanding then.
pub proof fn lemma_button_keeps_one_deadline(
    button: Button,
    channel: Channel<ButtonDirection>,
    s: SchedulerView,
    task_id: usize,
    level: PinState,
    now: u64,
)
    requires
        holds_none_for(s.deadlines, task_id),
    ensures
        holds_at_most_one_for(button.poll_outcome(channel, s, task_id, level, now).scheduler.deadlines, task_id),
        button.poll_outcome(channel, s, task_id, level, now).button.state is Debounce || holds_none_for(
            button.poll_outcome(channel, s, task_id, level, now).scheduler.deadlines,
            task_id,
        ),
    decreases button.rank(level),
{
    match button.state {
        ButtonState::WaitForPress => {
            if level == PinState::Low {
                lemma_button_keeps_one_deadline(
                    button.moved(PinState::Low, ButtonState::Debounce(Timer::started(now, DEBOUNCE_MILLIS))),
                    channel,
                    s,
                    task_id,
                    level,
                    now,
                );
            }
        },
        ButtonState::Debounce(timer) => {
            if level == PinState::High {
                lemma_button_keeps_one_deadline(
                    button.moved(button.input.ready_state, ButtonState::WaitForPress),
                    channel,
                    s,
                    task_id,
                    level,
                    now,
                );
            } else {
                lemma_filing_adds_one_pair(s.deadlines, s.ready.len(), timer.end_time, task_id, now);
                if timer.poll_result(s, task_id, now) == Ok::<Poll<()>, Fault>(Poll::Ready(())) {
                    let scheduler = timer.scheduler_after_poll(s, task_id, now);
                    if channel.send_result(scheduler.ready) is Ok {
                        lemma_button_keeps_one_deadline(
                            button.moved(button.input.ready_state, ButtonState::WaitForRelease),
                            channel.sent(button.direction),
                            SchedulerView { ready: channel.ready_after_send(scheduler.ready), ..scheduler },
                            task_id,
                            level,
                            now,
                        );
                    }
                }
            }
        },
        ButtonState::WaitForRelease => {
            if level == PinState::High {
                lemma_button_keeps_one_deadline(
                    button.moved(PinState::High, ButtonState::WaitForPress),
                    channel,
                    s,
                    task_id,
                    level,
                    now,
                );
            }
        },
    }
}

} // verus!
