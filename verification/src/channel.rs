//! A single-slot mailbox in which the latest value wins.

use vstd::prelude::*;
use core::marker::PhantomData;
use crate::executor::{wake_result, wake_task, woken, ReadyQueue};
use crate::fault::Fault;
use crate::future::Poll;

verus! {

/// One optional pending value and the task that last registered interest in it.
///
/// A value sent before the previous one was received replaces it: the channel
/// coalesces, it does not queue.
pub struct Channel<T> {
    pub item: Option<T>,
    pub task_id: Option<usize>,
}

/// The sending end of a [`Channel`]. It holds no reference: the channel is
/// named at each call.
pub struct Sender<T> {
    pub marker: PhantomData<T>,
}

/// Where a [`Receiver`] stands in its protocol.
#[derive(Clone, Copy, Debug, PartialEq, Eq, Structural)]
pub enum ReceiveState {
    /// Not polled yet: the next poll registers the polling task.
    Init,
    /// Registered: a poll takes the pending value, if there is one.
    Wait,
}

/// The receiving end of a [`Channel`]: a suspend point that a task polls.
pub struct Receiver<T> {
    pub state: ReceiveState,
    pub marker: PhantomData<T>,
}

impl<T> Channel<T> {
    /// The channel after `item` was sent: the slot holds `item`, whatever it held.
    pub open spec fn sent(self, item: T) -> Channel<T> {
        Channel { item: Some(item), task_id: self.task_id }
    }

    /// The channel after a receive: the slot is empty.
    pub open spec fn received(self) -> Channel<T> {
        Channel { item: None, task_id: self.task_id }
    }

    /// The channel after `task_id` registered as the waiting task.
    pub open spec fn registered(self, task_id: usize) -> Channel<T> {
        Channel { item: self.item, task_id: Some(task_id) }
    }

    /// The ready queue after a send: the registered task, if any, is woken.
    pub open spec fn ready_after_send(self, ready: Seq<usize>) -> Seq<usize> {
        match self.task_id {
            Some(task_id) => woken(ready, task_id),
            None => ready,
        }
    }

    /// What a send returns: a fault exactly if a task is registered and the
    /// ready queue is full.
    pub open spec fn send_result(self, ready: Seq<usize>) -> Result<(), Fault> {
        match self.task_id {
            Some(_) => wake_result(ready),
            None => Ok(()),
        }
    }

    /// An empty channel with no task registered.
    pub fn new() -> (c: Self)
        ensures
            c.item is None,
            c.task_id is None,
    {
        Channel { item: None, task_id: None }
    }

    /// A sending end for this channel.
    pub fn get_sender(&self) -> (s: Sender<T>)
    {
        Sender { marker: PhantomData }
    }

    /// A receiving end for this channel, not yet registered.
    pub fn get_receiver(&self) -> (r: Receiver<T>)
        ensures
            r.state == ReceiveState::Init,
    {
        Receiver { state: ReceiveState::Init, marker: PhantomData }
    }

    /// Puts `item` in the slot, replacing what was there, then wakes the
    /// registered task if there is one.
    ///
    /// The slot is written in every case. The call fails exactly when a task is
    /// registered and the ready queue is full.
    pub fn send(&mut self, item: T, ready: &mut ReadyQueue) -> (r: Result<(), Fault>)
        ensures
            *final(self) == old(self).sent(item),
            final(ready)@ == old(self).ready_after_send(old(ready)@),
            r == old(self).send_result(old(ready)@),
    {
        self.item = Some(item);
        match self.task_id {
            Some(task_id) => wake_task(ready, task_id),
            None => Ok(()),
        }
    }

    /// Takes the pending value out of the slot, if there is one.
    pub fn receive(&mut self) -> (r: Option<T>)
        ensures
            r == old(self).item,
            *final(self) == old(self).received(),
    {
        self.item.take()
    }

    /// Records `task_id` as the task to wake on the next send.
    pub fn register(&mut self, task_id: usize)
        ensures
            *final(self) == old(self).registered(task_id),
    {
        self.task_id = Some(task_id);
    }
}

impl<T> Sender<T> {
    /// Sends `item` through `channel`; see [`Channel::send`].
    pub fn send(&self, channel: &mut Channel<T>, item: T, ready: &mut ReadyQueue) -> (r: Result<(), Fault>)
        ensures
            *final(channel) == old(channel).sent(item),
            final(ready)@ == old(channel).ready_after_send(old(ready)@),
            r == old(channel).send_result(old(ready)@),
    {
        channel.send(item, ready)
    }
}

impl<T> Receiver<T> {
    /// What a poll returns: nothing on the registering poll, afterwards the
    /// pending value if there is one.
    pub open spec fn poll_result(self, channel: Channel<T>) -> Poll<T> {
        match (self.state, channel.item) {
            (ReceiveState::Wait, Some(item)) => Poll::Ready(item),
            _ => Poll::Pending,
        }
    }

    /// The channel after a poll by `task_id`: the first poll registers the
    /// task, a later one empties the slot.
    pub open spec fn channel_after_poll(self, channel: Channel<T>, task_id: usize) -> Channel<T> {
        match self.state {
            ReceiveState::Init => channel.registered(task_id),
            ReceiveState::Wait => channel.received(),
        }
    }

    /// Advances the receive by one step on behalf of `task_id`.
    ///
    /// The first poll registers `task_id` with the channel and is never ready,
    /// even if a value is pending: the value stays for the next poll.
    pub fn poll(&mut self, task_id: usize, channel: &mut Channel<T>) -> (r: Poll<T>)
        ensures
            r == old(self).poll_result(*old(channel)),
            *final(channel) == old(self).channel_after_poll(*old(channel), task_id),
            final(self).state == ReceiveState::Wait,
            old(self).state == ReceiveState::Init ==> final(channel).task_id == Some(task_id),
    {
        match self.state {
            ReceiveState::Init => {
                channel.register(task_id);
                self.state = ReceiveState::Wait;
                Poll::Pending
            },
            ReceiveState::Wait => match channel.receive() {
                Some(item) => Poll::Ready(item),
                None => Poll::Pending,
            },
        }
    }
}

/// Coalescing: of two values sent before any receive, a receive yields the
/// second only; the first is gone and no second receive finds a value.
pub proof fn lemma_channel_coalesces<T>(channel: Channel<T>, first: T, second: T)
    ensures
        channel.sent(first).sent(second).item == Some(second),
        channel.sent(first).sent(second).received().item is None,
        channel.sent(first).sent(second) == channel.sent(second),
{
}

/// No lost wakeup, for the channel: once a task has registered, every send
/// makes it ready once, given room in the ready queue, and leaves the sent
/// value in the slot for it.
pub proof fn lemma_send_wakes_receiver<T>(channel: Channel<T>, task_id: usize, item: T, ready: Seq<usize>)
    requires
        ready.len() < crate::executor::READY_CAPACITY,
    ensures
        channel.registered(task_id).send_result(ready) == Ok::<(), Fault>(()),
        channel.registered(task_id).ready_after_send(ready) == ready.push(task_id),
        channel.registered(task_id).sent(item).item == Some(item),
{
}

} // verus!
