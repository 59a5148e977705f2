use nrf_embed::button::ButtonDirection;
use nrf_embed::channel::{Channel, ReceiveState};
use nrf_embed::future::Poll;
use nrf_embed::led::{LedState, LedTask, NUM_COLS};
use nrf_embed::scheduler::Scheduler;
use nrf_embed::time::{Timer, TimerState};

fn led_task(channel: &Channel<ButtonDirection>) -> LedTask {
    LedTask::new([true; 5], channel.get_receiver())
}

#[test]
fn new_led_task_starts_at_column_zero() {
    let channel: Channel<ButtonDirection> = Channel::new();
    let led = led_task(&channel);
    assert_eq!(NUM_COLS, 5);
    assert_eq!(led.active_col, 0);
    assert_eq!(led.state, LedState::Toggle);
    assert_eq!(led.col, [true; 5]);
}

#[test]
fn left_shift_from_column_zero_wraps_to_the_last() {
    let channel: Channel<ButtonDirection> = Channel::new();
    let mut led = led_task(&channel);
    led.shift(ButtonDirection::Left);
    assert_eq!(led.active_col, 4);
}

#[test]
fn right_shift_from_the_last_column_wraps_to_zero() {
    let channel: Channel<ButtonDirection> = Channel::new();
    let mut led = led_task(&channel);
    led.active_col = 4;
    led.shift(ButtonDirection::Right);
    assert_eq!(led.active_col, 0);
}

#[test]
fn shifts_step_by_one_column() {
    let channel: Channel<ButtonDirection> = Channel::new();
    let mut led = led_task(&channel);
    led.shift(ButtonDirection::Right);
    assert_eq!(led.active_col, 1);
    led.shift(ButtonDirection::Right);
    assert_eq!(led.active_col, 2);
    led.shift(ButtonDirection::Left);
    assert_eq!(led.active_col, 1);
}

#[test]
fn shift_sets_both_columns_high() {
    let channel: Channel<ButtonDirection> = Channel::new();
    let mut led = LedTask::new([false, false, true, false, false], channel.get_receiver());
    led.shift(ButtonDirection::Right);
    assert_eq!(led.col, [true, true, true, false, false]);
    led.shift(ButtonDirection::Left);
    assert_eq!(led.col, [true, true, true, false, false]);
    assert_eq!(led.active_col, 0);
}

#[test]
fn toggle_inverts_the_active_column_only() {
    let channel: Channel<ButtonDirection> = Channel::new();
    let mut led = led_task(&channel);
    led.toggle();
    assert_eq!(led.col, [false, true, true, true, true]);
    led.toggle();
    assert_eq!(led.col, [true; 5]);
}

#[test]
fn first_poll_toggles_and_waits_for_timer_and_channel() {
    let mut scheduler = Scheduler::new();
    let mut channel: Channel<ButtonDirection> = Channel::new();
    let mut led = led_task(&channel);
    assert_eq!(led.poll(2, 0, &mut channel, &mut scheduler), Ok(Poll::Pending));
    assert_eq!(led.col, [false, true, true, true, true]);
    assert_eq!(led.state, LedState::Wait(Timer { end_time: 16384, state: TimerState::Wait }));
    assert_eq!(led.receiver.state, ReceiveState::Wait);
    assert_eq!(channel.task_id, Some(2));
    assert_eq!(scheduler.deadlines.next_deadline(), Some((16384, 2)));
}

#[test]
fn early_poll_changes_nothing() {
    let mut scheduler = Scheduler::new();
    let mut channel: Channel<ButtonDirection> = Channel::new();
    let mut led = led_task(&channel);
    assert_eq!(led.poll(2, 0, &mut channel, &mut scheduler), Ok(Poll::Pending));
    let waiting = led.state;
    assert_eq!(led.poll(2, 16383, &mut channel, &mut scheduler), Ok(Poll::Pending));
    assert_eq!(led.state, waiting);
    assert_eq!(led.col, [false, true, true, true, true]);
}

#[test]
fn end_of_the_blink_timer_toggles_again() {
    let mut scheduler = Scheduler::new();
    let mut channel: Channel<ButtonDirection> = Channel::new();
    let mut led = led_task(&channel);
    assert_eq!(led.poll(2, 0, &mut channel, &mut scheduler), Ok(Poll::Pending));
    assert_eq!(scheduler.schedule_wakeup(16384), Ok(()));
    assert_eq!(scheduler.ready.dequeue(), Some(2));
    assert_eq!(led.poll(2, 16384, &mut channel, &mut scheduler), Ok(Poll::Pending));
    assert_eq!(led.col, [true; 5]);
    assert_eq!(led.state, LedState::Wait(Timer { end_time: 32768, state: TimerState::Wait }));
    assert_eq!(scheduler.deadlines.next_deadline(), Some((32768, 2)));
}

#[test]
fn direction_from_the_channel_shifts_the_active_column() {
    let mut scheduler = Scheduler::new();
    let mut channel: Channel<ButtonDirection> = Channel::new();
    let mut led = led_task(&channel);
    assert_eq!(led.poll(2, 0, &mut channel, &mut scheduler), Ok(Poll::Pending));
    assert_eq!(channel.send(ButtonDirection::Left, &mut scheduler.ready), Ok(()));
    assert_eq!(scheduler.ready.dequeue(), Some(2));
    assert_eq!(led.poll(2, 100, &mut channel, &mut scheduler), Ok(Poll::Pending));
    assert_eq!(led.active_col, 4);
    assert_eq!(led.col, [true; 5]);
    assert_eq!(channel.item, None);
    assert_eq!(led.state, LedState::Wait(Timer { end_time: 16384, state: TimerState::Wait }));
}

#[test]
fn shifted_column_blinks_at_the_next_end_of_the_timer() {
    let mut scheduler = Scheduler::new();
    let mut channel: Channel<ButtonDirection> = Channel::new();
    let mut led = led_task(&channel);
    assert_eq!(led.poll(2, 0, &mut channel, &mut scheduler), Ok(Poll::Pending));
    assert_eq!(channel.send(ButtonDirection::Right, &mut scheduler.ready), Ok(()));
    assert_eq!(led.poll(2, 100, &mut channel, &mut scheduler), Ok(Poll::Pending));
    assert_eq!(led.active_col, 1);
    assert_eq!(scheduler.schedule_wakeup(16384), Ok(()));
    assert_eq!(led.poll(2, 16384, &mut channel, &mut scheduler), Ok(Poll::Pending));
    assert_eq!(led.col, [true, false, true, true, true]);
    assert_eq!(led.state, LedState::Wait(Timer { end_time: 32768, state: TimerState::Wait }));
}

#[test]
fn direction_within_the_blink_interval_files_no_second_deadline() {
    let mut scheduler = Scheduler::new();
    let mut channel: Channel<ButtonDirection> = Channel::new();
    let mut led = led_task(&channel);
    assert_eq!(led.poll(2, 0, &mut channel, &mut scheduler), Ok(Poll::Pending));
    assert_eq!(channel.send(ButtonDirection::Left, &mut scheduler.ready), Ok(()));
    assert_eq!(led.poll(2, 10, &mut channel, &mut scheduler), Ok(Poll::Pending));
    assert_eq!(scheduler.deadlines.next_deadline(), Some((16384, 2)));
    while scheduler.ready.dequeue().is_some() {}
    assert_eq!(scheduler.schedule_wakeup(16384), Ok(()));
    assert_eq!(scheduler.ready.dequeue(), Some(2));
    assert_eq!(scheduler.ready.dequeue(), None);
    assert_eq!(scheduler.deadlines.next_deadline(), None);
}

#[test]
fn many_directions_within_one_blink_interval_do_not_fill_the_deadline_queue() {
    let mut scheduler = Scheduler::new();
    let mut channel: Channel<ButtonDirection> = Channel::new();
    let mut led = led_task(&channel);
    assert_eq!(led.poll(2, 0, &mut channel, &mut scheduler), Ok(Poll::Pending));
    for press in 1..=12u64 {
        assert_eq!(channel.send(ButtonDirection::Right, &mut scheduler.ready), Ok(()));
        assert_eq!(scheduler.ready.dequeue(), Some(2));
        assert_eq!(led.poll(2, press * 1000, &mut channel, &mut scheduler), Ok(Poll::Pending));
    }
    assert_eq!(led.active_col, 2);
    assert_eq!(scheduler.deadlines.next_deadline(), Some((16384, 2)));
    assert_eq!(scheduler.schedule_wakeup(16384), Ok(()));
    assert_eq!(scheduler.deadlines.next_deadline(), None);
}

#[test]
fn only_the_latest_direction_is_seen() {
    let mut scheduler = Scheduler::new();
    let mut channel: Channel<ButtonDirection> = Channel::new();
    let mut led = led_task(&channel);
    assert_eq!(led.poll(2, 0, &mut channel, &mut scheduler), Ok(Poll::Pending));
    assert_eq!(channel.send(ButtonDirection::Left, &mut scheduler.ready), Ok(()));
    assert_eq!(channel.send(ButtonDirection::Right, &mut scheduler.ready), Ok(()));
    assert_eq!(led.poll(2, 100, &mut channel, &mut scheduler), Ok(Poll::Pending));
    assert_eq!(led.active_col, 1);
    assert_eq!(led.poll(2, 200, &mut channel, &mut scheduler), Ok(Poll::Pending));
    assert_eq!(led.active_col, 1);
}
