use nrf_embed::button::ButtonDirection;
use nrf_embed::channel::{Channel, ReceiveState};
use nrf_embed::executor::{ReadyQueue, READY_CAPACITY};
use nrf_embed::fault::Fault;
use nrf_embed::future::Poll;

#[test]
fn new_channel_is_empty() {
    let mut channel: Channel<u8> = Channel::new();
    assert_eq!(channel.task_id, None);
    assert_eq!(channel.receive(), None);
}

#[test]
fn second_send_replaces_the_first() {
    let mut ready = ReadyQueue::new();
    let mut channel: Channel<ButtonDirection> = Channel::new();
    assert_eq!(channel.send(ButtonDirection::Left, &mut ready), Ok(()));
    assert_eq!(channel.send(ButtonDirection::Right, &mut ready), Ok(()));
    assert_eq!(channel.receive(), Some(ButtonDirection::Right));
    assert_eq!(channel.receive(), None);
}

#[test]
fn send_without_a_registered_task_wakes_nobody() {
    let mut ready = ReadyQueue::new();
    let mut channel: Channel<u32> = Channel::new();
    assert_eq!(channel.send(7, &mut ready), Ok(()));
    assert_eq!(ready.dequeue(), None);
}

#[test]
fn send_wakes_the_registered_task_once_per_send() {
    let mut ready = ReadyQueue::new();
    let mut channel: Channel<u32> = Channel::new();
    channel.register(2);
    let sender = channel.get_sender();
    assert_eq!(sender.send(&mut channel, 10, &mut ready), Ok(()));
    assert_eq!(sender.send(&mut channel, 11, &mut ready), Ok(()));
    assert_eq!(ready.dequeue(), Some(2));
    assert_eq!(ready.dequeue(), Some(2));
    assert_eq!(ready.dequeue(), None);
    assert_eq!(channel.receive(), Some(11));
}

#[test]
fn last_registration_wins() {
    let mut ready = ReadyQueue::new();
    let mut channel: Channel<u32> = Channel::new();
    channel.register(1);
    channel.register(4);
    assert_eq!(channel.send(3, &mut ready), Ok(()));
    assert_eq!(ready.dequeue(), Some(4));
    assert_eq!(ready.dequeue(), None);
}

#[test]
fn send_to_a_full_ready_queue_faults_and_keeps_the_value() {
    let mut ready = ReadyQueue::new();
    for task_id in 0..READY_CAPACITY {
        assert_eq!(nrf_embed::executor::wake_task(&mut ready, task_id), Ok(()));
    }
    let mut channel: Channel<u32> = Channel::new();
    channel.register(1);
    assert_eq!(channel.send(9, &mut ready), Err(Fault::ReadyQueueFull));
    assert_eq!(channel.receive(), Some(9));
    assert_eq!(ready.dequeue(), Some(0));
}

#[test]
fn receiver_registers_on_first_poll() {
    let mut channel: Channel<u32> = Channel::new();
    let mut receiver = channel.get_receiver();
    assert_eq!(receiver.state, ReceiveState::Init);
    assert_eq!(receiver.poll(5, &mut channel), Poll::Pending);
    assert_eq!(receiver.state, ReceiveState::Wait);
    assert_eq!(channel.task_id, Some(5));
}

#[test]
fn first_poll_is_pending_even_with_a_value() {
    let mut ready = ReadyQueue::new();
    let mut channel: Channel<u32> = Channel::new();
    let mut receiver = channel.get_receiver();
    assert_eq!(channel.send(8, &mut ready), Ok(()));
    assert_eq!(receiver.poll(5, &mut channel), Poll::Pending);
    assert_eq!(receiver.poll(5, &mut channel), Poll::Ready(8));
    assert_eq!(receiver.poll(5, &mut channel), Poll::Pending);
}

#[test]
fn later_poll_takes_the_latest_value() {
    let mut ready = ReadyQueue::new();
    let mut channel: Channel<u32> = Channel::new();
    let mut receiver = channel.get_receiver();
    assert_eq!(receiver.poll(1, &mut channel), Poll::Pending);
    assert_eq!(channel.send(20, &mut ready), Ok(()));
    assert_eq!(channel.send(21, &mut ready), Ok(()));
    assert_eq!(receiver.poll(1, &mut channel), Poll::Ready(21));
    assert_eq!(channel.item, None);
}
