use nrf_embed::button::{Button, ButtonDirection, ButtonState};
use nrf_embed::channel::Channel;
use nrf_embed::executor::{wake_task, READY_CAPACITY};
use nrf_embed::fault::Fault;
use nrf_embed::future::Poll;
use nrf_embed::gpiote::PinState;
use nrf_embed::scheduler::Scheduler;
use nrf_embed::time::{Timer, TimerState};

fn left_button(scheduler: &mut Scheduler, channel: &Channel<ButtonDirection>) -> Button {
    Button::new(ButtonDirection::Left, channel.get_sender(), scheduler).unwrap()
}

#[test]
fn new_button_waits_for_a_press_on_its_own_channel() {
    let mut scheduler = Scheduler::new();
    let channel: Channel<ButtonDirection> = Channel::new();
    let first = left_button(&mut scheduler, &channel);
    let second = Button::new(ButtonDirection::Right, channel.get_sender(), &mut scheduler).unwrap();
    assert_eq!(first.state, ButtonState::WaitForPress);
    assert_eq!(first.input.channel_id, 0);
    assert_eq!(first.direction, ButtonDirection::Left);
    assert_eq!(second.input.channel_id, 1);
    assert_eq!(second.direction, ButtonDirection::Right);
    assert!(Button::new(ButtonDirection::Left, channel.get_sender(), &mut scheduler).is_err());
}

#[test]
fn idle_button_waits_for_an_edge() {
    let mut scheduler = Scheduler::new();
    let mut channel: Channel<ButtonDirection> = Channel::new();
    let mut button = left_button(&mut scheduler, &channel);
    assert_eq!(button.poll(0, PinState::High, 10, &mut channel, &mut scheduler), Ok(Poll::Pending));
    assert_eq!(button.state, ButtonState::WaitForPress);
    assert_eq!(channel.item, None);
    assert_eq!(scheduler.inputs.wake_tasks, [Some(0), None]);
    assert_eq!(scheduler.deadlines.next_deadline(), None);
}

#[test]
fn press_starts_the_debounce_timer_and_sends_nothing_yet() {
    let mut scheduler = Scheduler::new();
    let mut channel: Channel<ButtonDirection> = Channel::new();
    let mut button = left_button(&mut scheduler, &channel);
    assert_eq!(button.poll(0, PinState::Low, 1000, &mut channel, &mut scheduler), Ok(Poll::Pending));
    assert_eq!(channel.item, None);
    assert_eq!(button.state, ButtonState::Debounce(Timer { end_time: 4276, state: TimerState::Wait }));
    assert_eq!(scheduler.deadlines.next_deadline(), Some((4276, 0)));
    assert_eq!(scheduler.inputs.wake_tasks, [None, None]);
}

#[test]
fn press_that_lasts_is_sent_at_the_end_of_the_debounce_interval() {
    let mut scheduler = Scheduler::new();
    let mut channel: Channel<ButtonDirection> = Channel::new();
    let mut button = left_button(&mut scheduler, &channel);
    assert_eq!(button.poll(0, PinState::Low, 1000, &mut channel, &mut scheduler), Ok(Poll::Pending));
    assert_eq!(button.poll(0, PinState::Low, 4275, &mut channel, &mut scheduler), Ok(Poll::Pending));
    assert_eq!(channel.item, None);
    assert_eq!(button.poll(0, PinState::Low, 4276, &mut channel, &mut scheduler), Ok(Poll::Pending));
    assert_eq!(channel.item, Some(ButtonDirection::Left));
    assert_eq!(button.state, ButtonState::WaitForRelease);
    assert_eq!(scheduler.inputs.wake_tasks, [Some(0), None]);
}

#[test]
fn press_shorter_than_the_debounce_interval_sends_nothing() {
    let mut scheduler = Scheduler::new();
    let mut channel: Channel<ButtonDirection> = Channel::new();
    let mut button = left_button(&mut scheduler, &channel);
    assert_eq!(button.poll(0, PinState::Low, 1000, &mut channel, &mut scheduler), Ok(Poll::Pending));
    assert_eq!(button.poll(0, PinState::High, 4276, &mut channel, &mut scheduler), Ok(Poll::Pending));
    assert_eq!(channel.item, None);
    assert_eq!(button.state, ButtonState::WaitForPress);
    assert_eq!(scheduler.inputs.wake_tasks, [Some(0), None]);
    assert_eq!(button.poll(0, PinState::High, 9000, &mut channel, &mut scheduler), Ok(Poll::Pending));
    assert_eq!(channel.item, None);
}

#[test]
fn bounce_within_the_debounce_interval_sends_nothing() {
    let mut scheduler = Scheduler::new();
    let mut channel: Channel<ButtonDirection> = Channel::new();
    let mut button = left_button(&mut scheduler, &channel);
    assert_eq!(button.poll(0, PinState::Low, 1000, &mut channel, &mut scheduler), Ok(Poll::Pending));
    assert_eq!(button.poll(0, PinState::High, 2000, &mut channel, &mut scheduler), Ok(Poll::Pending));
    assert_eq!(button.poll(0, PinState::Low, 3000, &mut channel, &mut scheduler), Ok(Poll::Pending));
    assert_eq!(button.poll(0, PinState::Low, 4276, &mut channel, &mut scheduler), Ok(Poll::Pending));
    assert_eq!(channel.item, None);
    assert_eq!(button.state, ButtonState::Debounce(Timer { end_time: 6276, state: TimerState::Wait }));
    assert_eq!(button.poll(0, PinState::High, 5000, &mut channel, &mut scheduler), Ok(Poll::Pending));
    assert_eq!(channel.item, None);
    assert_eq!(button.state, ButtonState::WaitForPress);
}

#[test]
fn held_button_sends_exactly_once() {
    let mut scheduler = Scheduler::new();
    let mut channel: Channel<ButtonDirection> = Channel::new();
    let mut button = left_button(&mut scheduler, &channel);
    let mut sends = 0;
    for now in [1000u64, 2000, 4276, 5000, 9000, 50000] {
        assert_eq!(button.poll(0, PinState::Low, now, &mut channel, &mut scheduler), Ok(Poll::Pending));
        if channel.receive().is_some() {
            sends += 1;
        }
    }
    assert_eq!(sends, 1);
    assert_eq!(button.state, ButtonState::WaitForRelease);
    assert_eq!(scheduler.inputs.wake_tasks, [Some(0), None]);
}

#[test]
fn release_leads_back_to_waiting_for_a_press() {
    let mut scheduler = Scheduler::new();
    let mut channel: Channel<ButtonDirection> = Channel::new();
    let mut button = left_button(&mut scheduler, &channel);
    assert_eq!(button.poll(0, PinState::Low, 0, &mut channel, &mut scheduler), Ok(Poll::Pending));
    assert_eq!(button.poll(0, PinState::Low, 3276, &mut channel, &mut scheduler), Ok(Poll::Pending));
    assert_eq!(channel.receive(), Some(ButtonDirection::Left));
    assert_eq!(button.poll(0, PinState::High, 4000, &mut channel, &mut scheduler), Ok(Poll::Pending));
    assert_eq!(button.state, ButtonState::WaitForPress);
    assert_eq!(channel.item, None);
    assert_eq!(button.poll(0, PinState::Low, 5000, &mut channel, &mut scheduler), Ok(Poll::Pending));
    assert_eq!(button.poll(0, PinState::Low, 8276, &mut channel, &mut scheduler), Ok(Poll::Pending));
    assert_eq!(channel.receive(), Some(ButtonDirection::Left));
}

#[test]
fn counted_press_wakes_the_task_that_listens_on_the_channel() {
    let mut scheduler = Scheduler::new();
    let mut channel: Channel<ButtonDirection> = Channel::new();
    let mut button = Button::new(ButtonDirection::Right, channel.get_sender(), &mut scheduler).unwrap();
    channel.register(2);
    assert_eq!(button.poll(0, PinState::Low, 0, &mut channel, &mut scheduler), Ok(Poll::Pending));
    assert_eq!(scheduler.ready.dequeue(), None);
    assert_eq!(button.poll(0, PinState::Low, 3276, &mut channel, &mut scheduler), Ok(Poll::Pending));
    assert_eq!(scheduler.ready.dequeue(), Some(2));
    assert_eq!(scheduler.ready.dequeue(), None);
    assert_eq!(channel.item, Some(ButtonDirection::Right));
}

#[test]
fn send_with_a_full_ready_queue_is_a_fault() {
    let mut scheduler = Scheduler::new();
    let mut channel: Channel<ButtonDirection> = Channel::new();
    let mut button = left_button(&mut scheduler, &channel);
    channel.register(2);
    assert_eq!(button.poll(0, PinState::Low, 0, &mut channel, &mut scheduler), Ok(Poll::Pending));
    for _ in 0..READY_CAPACITY {
        assert_eq!(wake_task(&mut scheduler.ready, 1), Ok(()));
    }
    assert_eq!(
        button.poll(0, PinState::Low, 3276, &mut channel, &mut scheduler),
        Err(Fault::ReadyQueueFull)
    );
    assert_eq!(button.state, ButtonState::Debounce(Timer { end_time: 3276, state: TimerState::Wait }));
    assert_eq!(channel.item, Some(ButtonDirection::Left));
}

#[test]
fn button_has_a_deadline_outstanding_only_while_it_debounces() {
    let mut scheduler = Scheduler::new();
    let mut channel: Channel<ButtonDirection> = Channel::new();
    let mut button = Button::new(ButtonDirection::Left, channel.get_sender(), &mut scheduler).unwrap();
    assert_eq!(button.poll(0, PinState::High, 0, &mut channel, &mut scheduler), Ok(Poll::Pending));
    assert_eq!(scheduler.deadlines.next_deadline(), None);
    assert_eq!(button.poll(0, PinState::Low, 10, &mut channel, &mut scheduler), Ok(Poll::Pending));
    assert_eq!(scheduler.deadlines.next_deadline(), Some((3286, 0)));
    assert_eq!(scheduler.schedule_wakeup(3286), Ok(()));
    assert_eq!(scheduler.deadlines.next_deadline(), None);
    assert_eq!(button.poll(0, PinState::Low, 3286, &mut channel, &mut scheduler), Ok(Poll::Pending));
    assert_eq!(button.state, ButtonState::WaitForRelease);
    assert_eq!(scheduler.deadlines.next_deadline(), None);
    assert_eq!(button.poll(0, PinState::High, 4000, &mut channel, &mut scheduler), Ok(Poll::Pending));
    assert_eq!(button.poll(0, PinState::Low, 5000, &mut channel, &mut scheduler), Ok(Poll::Pending));
    assert_eq!(scheduler.deadlines.next_deadline(), Some((8276, 0)));
    assert_eq!(scheduler.schedule_wakeup(8276), Ok(()));
    assert_eq!(scheduler.deadlines.next_deadline(), None);
}
