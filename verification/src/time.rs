//! Time: the 64-bit tick count built from a 24-bit hardware counter, and the
//! one-shot timer that a task polls.
//!
//! A tick is one period of the 32768 Hz clock. How many ticks a duration
//! lasts and at which tick a timer ends is computed by the `fugit` crate at
//! this rate; whether that tick is reached is judged on the tick count itself.

use vstd::prelude::*;
use crate::deadline::TICKS_PER_EPOCH;
use crate::fault::Fault;
use crate::future::Poll;
use crate::scheduler::{Scheduler, SchedulerView};

verus! {

/// The tick count for an overflow count and a counter reading: the overflow
/// count shifted left by the 24 bits of the counter, or-ed with the reading.
pub open spec fn tick_of(overflows: u32, counter: u32) -> u64 {
    ((overflows as u64) << 24u64) | (counter as u64)
}

/// Counts the overflows of the hardware counter and so extends its 24 bits
/// to a 64-bit tick count.
pub struct Ticker {
    pub ovf_count: u32,
}

impl Ticker {
    /// A ticker that has seen no overflow yet.
    pub fn init() -> (t: Ticker)
        ensures
            t.ovf_count == 0,
    {
        Ticker { ovf_count: 0 }
    }

    /// The overflow count after one more overflow; it wraps at 32 bits.
    pub open spec fn next_ovf_count(self) -> u32 {
        if self.ovf_count == u32::MAX {
            0
        } else {
            (self.ovf_count + 1) as u32
        }
    }

    /// Takes note of one overflow of the hardware counter.
    pub fn handle_overflow(&mut self)
        ensures
            final(self).ovf_count == old(self).next_ovf_count(),
    {
        self.ovf_count = self.ovf_count.wrapping_add(1);
    }

    /// The tick count at a reading of the hardware counter taken while the
    /// overflow count stood still.
    pub fn tick_at(&self, counter: u32) -> (tick: u64)
        ensures
            tick == tick_of(self.ovf_count, counter),
    {
        ((self.ovf_count as u64) << 24u64) | (counter as u64)
    }

    /// One attempt to read the time without stopping the overflow interrupt.
    ///
    /// The caller samples the overflow count, then the hardware counter, then
    /// the overflow count again. If the two overflow samples differ, an
    /// overflow fell between them: the reading is torn, the result is `None`
    /// and the caller samples again. Otherwise the result is the tick count.
    pub fn now(ovf_before: u32, counter: u32, ovf_after: u32) -> (tick: Option<u64>)
        ensures
            tick is Some <==> ovf_before == ovf_after,
            tick is Some ==> tick->Some_0 == tick_of(ovf_after, counter),
    {
        if ovf_before == ovf_after {
            Some(((ovf_after as u64) << 24u64) | (counter as u64))
        } else {
            None
        }
    }
}

/// With a reading inside the 24 bits of the counter, the tick count is the
/// overflow count times 2^24 plus the reading.
pub proof fn lemma_tick_value(overflows: u32, counter: u32)
    requires
        counter < TICKS_PER_EPOCH,
    ensures
        tick_of(overflows, counter) == overflows * TICKS_PER_EPOCH + counter,
        tick_of(overflows, counter) / TICKS_PER_EPOCH == overflows,
        tick_of(overflows, counter) % TICKS_PER_EPOCH == counter,
{
    let t = ((overflows as u64) << 24u64) | (counter as u64);
    assert(t == (overflows as u64) * 0x100_0000u64 + (counter as u64)) by (bit_vector)
        requires
            counter < 0x100_0000u32,
            t == ((overflows as u64) << 24u64) | (counter as u64),
    ;
}

/// Monotonicity: of two samples of the time, the later is not smaller. The
/// later sample has a larger overflow count, or the same overflow count and
/// a counter reading that is not smaller; so the claim holds as well when the
/// counter overflowed between the two.
pub proof fn lemma_now_monotonic(ovf_first: u32, counter_first: u32, ovf_second: u32, counter_second: u32)
    requires
        counter_first < TICKS_PER_EPOCH,
        counter_second < TICKS_PER_EPOCH,
        ovf_first < ovf_second || (ovf_first == ovf_second && counter_first <= counter_second),
    ensures
        tick_of(ovf_first, counter_first) <= tick_of(ovf_second, counter_second),
{
    lemma_tick_value(ovf_first, counter_first);
    lemma_tick_value(ovf_second, counter_second);
}

/// The sum of two tick counts as a 64-bit counter that wraps holds it.
pub open spec fn wrapping_sum(a: u64, b: u64) -> u64 {
    if a + b > u64::MAX {
        (a + b - 0x1_0000_0000_0000_0000) as u64
    } else {
        (a + b) as u64
    }
}

/// The ticks that a number of milliseconds lasts, rounded down.
pub open spec fn millis_in_ticks(ms: u64) -> int {
    (4096 * ms) / 125
}

/// A timer of `ms` milliseconds that starts at `now` ends within the range
/// of the tick count.
pub open spec fn ends_in_range(now: u64, ms: u64) -> bool {
    now + millis_in_ticks(ms) <= u64::MAX
}

/// `fugit::Duration::<u64, 1, 32768>::millis`, then `ticks`: the duration
/// of `ms` milliseconds in ticks of 1/32768 s. The crate multiplies by 4096
/// before it divides by 125, so `ms` must leave room for that product.
#[verifier::external_body]
fn ticks_from_millis(ms: u64) -> (ticks: u64)
    requires
        4096 * ms <= u64::MAX,
    ensures
        ticks == millis_in_ticks(ms),
{
    fugit::Duration::<u64, 1, 32768>::millis(ms).ticks()
}

/// `fugit::Instant + fugit::Duration` at the same rate: the ticks are
/// added with wrap-around.
#[verifier::external_body]
fn instant_plus(start: u64, span: u64) -> (end: u64)
    ensures
        end == wrapping_sum(start, span),
{
    let start = fugit::Instant::<u64, 1, 32768>::from_ticks(start);
    let span = fugit::Duration::<u64, 1, 32768>::from_ticks(span);
    (start + span).ticks()
}

/// Where a [`Timer`] stands in its protocol.
#[derive(Clone, Copy, Debug, PartialEq, Eq, Structural)]
pub enum TimerState {
    /// Not polled yet: the next poll files the deadline.
    Init,
    /// The deadline is filed: a poll only looks at the time.
    Wait,
}

/// A one-shot deadline: a suspend point that is ready once the tick count is
/// at or after `end_time`.
#[derive(Clone, Copy, Debug, PartialEq, Eq, Structural)]
pub struct Timer {
    pub end_time: u64,
    pub state: TimerState,
}

impl Timer {
    /// A timer that ends `duration` ticks after `now`. The end has to lie
    /// within the range of the tick count.
    pub fn new(now: u64, duration: u64) -> (t: Timer)
        requires
            now + duration <= u64::MAX,
        ensures
            t.end_time == now + duration,
            t.state == TimerState::Init,
    {
        Timer { end_time: instant_plus(now, duration), state: TimerState::Init }
    }

    /// The timer that [`Timer::after_millis`] makes.
    pub open spec fn started(now: u64, ms: u64) -> Timer {
        Timer { end_time: (now + millis_in_ticks(ms)) as u64, state: TimerState::Init }
    }

    /// A timer that ends `ms` milliseconds after `now`.
    pub fn after_millis(now: u64, ms: u64) -> (t: Timer)
        requires
            4096 * ms <= u64::MAX,
            ends_in_range(now, ms),
        ensures
            t == Timer::started(now, ms),
    {
        Timer::new(now, ticks_from_millis(ms))
    }

    /// Files the deadline of this timer for `task_id`, see [`Scheduler::register`].
    pub fn register(&self, task_id: usize, now: u64, scheduler: &mut Scheduler) -> (r: Result<(), Fault>)
        ensures
            final(scheduler)@ == old(scheduler)@.file(self.end_time, task_id, now),
            r == old(scheduler)@.file_result(self.end_time, task_id, now),
    {
        scheduler.register(self.end_time, task_id, now)
    }

    /// What a poll at `now` returns.
    pub open spec fn poll_result(self, s: SchedulerView, task_id: usize, now: u64) -> Result<Poll<()>, Fault> {
        match self.state {
            TimerState::Init => match s.file_result(self.end_time, task_id, now) {
                Ok(()) => Ok(Poll::Pending),
                Err(fault) => Err(fault),
            },
            TimerState::Wait => if now >= self.end_time {
                Ok(Poll::Ready(()))
            } else {
                Ok(Poll::Pending)
            },
        }
    }

    /// The timer after a poll at `now`: once the deadline is filed it waits.
    pub open spec fn after_poll(self, s: SchedulerView, task_id: usize, now: u64) -> Timer {
        match self.state {
            TimerState::Init => if s.file_result(self.end_time, task_id, now) is Ok {
                Timer { end_time: self.end_time, state: TimerState::Wait }
            } else {
                self
            },
            TimerState::Wait => self,
        }
    }

    /// The scheduler after a poll of this timer by `task_id` at `now`.
    pub open spec fn scheduler_after_poll(self, s: SchedulerView, task_id: usize, now: u64) -> SchedulerView {
        match self.state {
            TimerState::Init => s.file(self.end_time, task_id, now),
            TimerState::Wait => s,
        }
    }

    /// Advances the timer by one step on behalf of `task_id` at tick `now`.
    ///
    /// The first poll files the deadline and is pending. Every later poll is
    /// ready exactly when `now` is at or after the end time; a poll that comes
    /// too early is pending again and files nothing.
    pub fn poll(&mut self, task_id: usize, now: u64, scheduler: &mut Scheduler) -> (r: Result<Poll<()>, Fault>)
        ensures
            r == old(self).poll_result(old(scheduler)@, task_id, now),
            *final(self) == old(self).after_poll(old(scheduler)@, task_id, now),
            final(scheduler)@ == old(self).scheduler_after_poll(old(scheduler)@, task_id, now),
    {
        match self.state {
            TimerState::Init => {
                match self.register(task_id, now, scheduler) {
                    Ok(()) => {
                        self.state = TimerState::Wait;
                        Ok(Poll::Pending)
                    },
                    Err(fault) => Err(fault),
                }
            },
            TimerState::Wait => {
                if now >= self.end_time {
                    Ok(Poll::Ready(()))
                } else {
                    Ok(Poll::Pending)
                }
            },
        }
    }
}

/// Never early: once a timer of `ms` milliseconds that started at `start`
/// has filed its deadline, a poll is ready exactly when the tick count is at
/// or after the start plus the ticks that `ms` milliseconds last, and it
/// files nothing again.
pub proof fn lemma_timer_is_never_early(start: u64, ms: u64, s: SchedulerView, task_id: usize, now: u64)
    requires
        ends_in_range(start, ms),
    ensures
        (Timer { state: TimerState::Wait, ..Timer::started(start, ms) }).poll_result(s, task_id, now) == (if now >= start
            + millis_in_ticks(ms) {
            Ok::<Poll<()>, Fault>(Poll::Ready(()))
        } else {
            Ok::<Poll<()>, Fault>(Poll::Pending)
        }),
        (Timer { state: TimerState::Wait, ..Timer::started(start, ms) }).scheduler_after_poll(s, task_id, now) == s,
{
}

} // verus!
