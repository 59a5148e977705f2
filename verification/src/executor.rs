//! The executor: the ready queue of task identifiers that are due for their
//! next step, and the turn that advances the next of them.

use vstd::prelude::*;
use crate::button::{Button, ButtonDirection, DEBOUNCE_MILLIS};
use crate::channel::Channel;
use crate::fault::Fault;
use crate::future::Poll;
use crate::gpiote::PinState;
use crate::led::{LedTask, BLINK_MILLIS};
use crate::scheduler::Scheduler;
use crate::time::ends_in_range;

verus! {

/// How many task identifiers the ready queue holds at most.
pub const READY_CAPACITY: usize = 32;

/// A first-in first-out queue of task identifiers with room for
/// [`READY_CAPACITY`] of them, kept in a `heapless::mpmc::Queue`.
///
/// Verus does not look inside; what the queue holds is [`ready_items`].
#[verifier::external_body]
pub struct ReadyQueue {
    queue: heapless::mpmc::Queue<usize, 32>,
}

/// The task identifiers in the queue, the one that leaves next at index 0.
pub uninterp spec fn ready_items(q: ReadyQueue) -> Seq<usize>;

/// `heapless::mpmc::Queue::new`: a queue that holds nothing.
#[verifier::external_body]
#[allow(deprecated)]
fn queue_new() -> (q: ReadyQueue)
    ensures
        ready_items(q) == Seq::<usize>::empty(),
{
    ReadyQueue { queue: heapless::mpmc::Queue::new() }
}

/// `heapless::mpmc::Queue::enqueue`: appends `item` at the back while fewer
/// than 32 items are held; hands `item` back and changes nothing otherwise.
#[verifier::external_body]
fn queue_enqueue(q: &mut ReadyQueue, item: usize) -> (r: Result<(), usize>)
    ensures
        r is Ok <==> ready_items(*old(q)).len() < 32,
        r is Ok ==> ready_items(*final(q)) == ready_items(*old(q)).push(item),
        r is Err ==> r->Err_0 == item && ready_items(*final(q)) == ready_items(*old(q)),
{
    q.queue.enqueue(item)
}

/// `heapless::mpmc::Queue::dequeue`: removes and returns the item at the
/// front, or returns `None` from an empty queue.
#[verifier::external_body]
fn queue_dequeue(q: &mut ReadyQueue) -> (r: Option<usize>)
    ensures
        r is None <==> ready_items(*old(q)).len() == 0,
        r is None ==> ready_items(*final(q)) == ready_items(*old(q)),
        r is Some ==> r->Some_0 == ready_items(*old(q))[0] && ready_items(*final(q)) == ready_items(*old(q)).skip(1),
{
    q.queue.dequeue()
}

impl View for ReadyQueue {
    type V = Seq<usize>;

    open spec fn view(&self) -> Seq<usize> {
        ready_items(*self)
    }
}

impl ReadyQueue {
    /// An empty ready queue.
    pub fn new() -> (q: ReadyQueue)
        ensures
            q@ == Seq::<usize>::empty(),
    {
        queue_new()
    }

    /// Takes the task identifier at the front of the queue, if there is one.
    pub fn dequeue(&mut self) -> (r: Option<usize>)
        ensures
            r == (if old(self)@.len() == 0 { None } else { Some(old(self)@[0]) }),
            final(self)@ == (if old(self)@.len() == 0 { old(self)@ } else { old(self)@.skip(1) }),
    {
        queue_dequeue(self)
    }
}

/// How many more identifiers a ready queue of length `ready_len` takes.
pub open spec fn room(ready_len: nat) -> nat {
    if ready_len < READY_CAPACITY {
        (READY_CAPACITY - ready_len) as nat
    } else {
        0
    }
}

/// The ready queue after `task_id` was to be made ready: the identifier is
/// appended, unless the queue is full, in which case nothing changes.
pub open spec fn woken(ready: Seq<usize>, task_id: usize) -> Seq<usize> {
    if ready.len() < READY_CAPACITY {
        ready.push(task_id)
    } else {
        ready
    }
}

/// What making a task ready returns: a fault exactly if the queue is full.
pub open spec fn wake_result(ready: Seq<usize>) -> Result<(), Fault> {
    if ready.len() < READY_CAPACITY {
        Ok(())
    } else {
        Err(Fault::ReadyQueueFull)
    }
}

/// Marks a task ready: appends its identifier to the ready queue.
///
/// A full queue is a configuration fault: the identifier is not dropped
/// silently, the queue is left as it was and the fault is reported.
pub fn wake_task(ready: &mut ReadyQueue, task_id: usize) -> (r: Result<(), Fault>)
    ensures
        r == wake_result(old(ready)@),
        final(ready)@ == woken(old(ready)@, task_id),
{
    match queue_enqueue(ready, task_id) {
        Ok(()) => Ok(()),
        Err(_) => Err(Fault::ReadyQueueFull),
    }
}

/// The number of resident tasks.
pub const TASK_COUNT: usize = 3;

/// The identifier of the task of the left button.
pub const LEFT_BUTTON_TASK: usize = 0;

/// The identifier of the task of the right button.
pub const RIGHT_BUTTON_TASK: usize = 1;

/// The identifier of the LED task.
pub const LED_TASK: usize = 2;

/// The resident tasks, each at the place of its identifier.
pub struct Tasks {
    pub left: Button,
    pub right: Button,
    pub led: LedTask,
}

/// What one turn of the executor did.
#[derive(Clone, Copy, Debug, PartialEq, Eq, Structural)]
pub enum Turn {
    /// The ready queue was empty: the processor may sleep until an interrupt.
    Idle,
    /// The identifier taken from the ready queue names no task; it was dropped.
    Skipped(usize),
    /// The task with this identifier was advanced by one step.
    Polled(usize),
}

impl Tasks {
    /// Every task is well-formed.
    pub open spec fn wf(&self) -> bool {
        self.left.wf() && self.right.wf() && self.led.wf()
    }
}

/// The ready queue after the identifiers `0 .. count` were to be made ready
/// in ascending order: as many of them are appended as the queue has room for.
pub open spec fn seeded(ready: Seq<usize>, count: usize) -> Seq<usize> {
    ready + Seq::new(
        if count <= room(ready.len()) { count as nat } else { room(ready.len()) },
        |i: int| i as usize,
    )
}

/// Makes every task ready once, in ascending order of the identifiers, so
/// that each task runs one step before it depends on interrupts.
///
/// If the ready queue cannot take all `count` identifiers, the call stops
/// with a fault at the first one that does not fit.
pub fn start_tasks(ready: &mut ReadyQueue, count: usize) -> (r: Result<(), Fault>)
    ensures
        final(ready)@ == seeded(old(ready)@, count),
        r == (if count <= room(old(ready)@.len()) {
            Ok::<(), Fault>(())
        } else {
            Err::<(), Fault>(Fault::ReadyQueueFull)
        }),
{
    let mut task_id: usize = 0;
    while task_id < count
        invariant
            task_id <= count,
            task_id <= room(old(ready)@.len()),
            ready@ == seeded(old(ready)@, task_id),
        decreases count - task_id,
    {
        match wake_task(ready, task_id) {
            Ok(()) => {},
            Err(fault) => {
                return Err(fault);
            },
        }
        task_id = task_id + 1;
    }
    Ok(())
}

/// What a turn returns after a task was polled.
pub open spec fn turn_result(task_id: usize, polled: Result<Poll<()>, Fault>) -> Result<Turn, Fault> {
    match polled {
        Ok(_) => Ok(Turn::Polled(task_id)),
        Err(fault) => Err(fault),
    }
}

/// Runs one turn of the executor: takes the next identifier off the ready
/// queue and advances the task that it names by one step.
///
/// `levels` holds the level of the pin of each input channel and `now` the
/// tick count, both read just before the turn; the tick count has to leave
/// room for the end of the timers that the tasks start. The caller repeats
/// the turn until it is idle, then sleeps until the next interrupt.
///
/// - With an empty ready queue nothing changes and the turn is idle.
/// - An identifier that names no task is dropped and the turn is skipped.
/// - Otherwise the named task is polled, see [`Button::poll`] and
///   [`LedTask::poll`]; the other tasks stay as they are.
pub fn run_tasks(
    tasks: &mut Tasks,
    channel: &mut Channel<ButtonDirection>,
    scheduler: &mut Scheduler,
    levels: [PinState; 2],
    now: u64,
) -> (r: Result<Turn, Fault>)
    requires
        old(tasks).wf(),
        ends_in_range(now, DEBOUNCE_MILLIS),
        ends_in_range(now, BLINK_MILLIS),
    ensures
        final(tasks).wf(),
        old(scheduler)@.ready.len() == 0 ==> {
            &&& r == Ok::<Turn, Fault>(Turn::Idle)
            &&& *final(tasks) == *old(tasks)
            &&& *final(channel) == *old(channel)
            &&& final(scheduler)@ == old(scheduler)@
        },
        old(scheduler)@.ready.len() > 0 && old(scheduler)@.ready[0] >= TASK_COUNT ==> {
            &&& r == Ok::<Turn, Fault>(Turn::Skipped(old(scheduler)@.ready[0]))
            &&& *final(tasks) == *old(tasks)
            &&& *final(channel) == *old(channel)
            &&& final(scheduler)@ == old(scheduler)@.dequeued()
        },
        old(scheduler)@.ready.len() > 0 && old(scheduler)@.ready[0] == LEFT_BUTTON_TASK ==> {
            let outcome = old(tasks).left.poll_outcome(
                *old(channel),
                old(scheduler)@.dequeued(),
                LEFT_BUTTON_TASK,
                levels@[old(tasks).left.input.channel_id as int],
                now,
            );
            &&& r == turn_result(LEFT_BUTTON_TASK, outcome.result)
            &&& final(tasks).left == outcome.button
            &&& final(tasks).right == old(tasks).right
            &&& final(tasks).led == old(tasks).led
            &&& *final(channel) == outcome.channel
            &&& final(scheduler)@ == outcome.scheduler
        },
        old(scheduler)@.ready.len() > 0 && old(scheduler)@.ready[0] == RIGHT_BUTTON_TASK ==> {
            let outcome = old(tasks).right.poll_outcome(
                *old(channel),
                old(scheduler)@.dequeued(),
                RIGHT_BUTTON_TASK,
                levels@[old(tasks).right.input.channel_id as int],
                now,
            );
            &&& r == turn_result(RIGHT_BUTTON_TASK, outcome.result)
            &&& final(tasks).right == outcome.button
            &&& final(tasks).left == old(tasks).left
            &&& final(tasks).led == old(tasks).led
            &&& *final(channel) == outcome.channel
            &&& final(scheduler)@ == outcome.scheduler
        },
        old(scheduler)@.ready.len() > 0 && old(scheduler)@.ready[0] == LED_TASK ==> {
            let outcome = old(tasks).led@.poll_outcome(*old(channel), old(scheduler)@.dequeued(), LED_TASK, now);
            &&& r == turn_result(LED_TASK, outcome.result)
            &&& final(tasks).led@ == outcome.led
            &&& final(tasks).left == old(tasks).left
            &&& final(tasks).right == old(tasks).right
            &&& *final(channel) == outcome.channel
            &&& final(scheduler)@ == outcome.scheduler
        },
{
    let task_id = match scheduler.ready.dequeue() {
        Some(task_id) => task_id,
        None => {
            return Ok(Turn::Idle);
        },
    };
    let polled = if task_id == LEFT_BUTTON_TASK {
        let level = levels[tasks.left.input.channel_id];
        tasks.left.poll(task_id, level, now, channel, scheduler)
    } else if task_id == RIGHT_BUTTON_TASK {
        let level = levels[tasks.right.input.channel_id];
        tasks.right.poll(task_id, level, now, channel, scheduler)
    } else if task_id == LED_TASK {
        tasks.led.poll(task_id, now, channel, scheduler)
    } else {
        return Ok(Turn::Skipped(task_id));
    };
    match polled {
        Ok(_) => Ok(Turn::Polled(task_id)),
        Err(fault) => Err(fault),
    }
}

} // verus!
