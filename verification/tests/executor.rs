use nrf_embed::executor::{start_tasks, wake_task, ReadyQueue, READY_CAPACITY};
use nrf_embed::fault::Fault;

#[test]
fn ready_queue_is_first_in_first_out() {
    let mut ready = ReadyQueue::new();
    assert_eq!(ready.dequeue(), None);
    assert_eq!(wake_task(&mut ready, 2), Ok(()));
    assert_eq!(wake_task(&mut ready, 0), Ok(()));
    assert_eq!(wake_task(&mut ready, 1), Ok(()));
    assert_eq!(ready.dequeue(), Some(2));
    assert_eq!(ready.dequeue(), Some(0));
    assert_eq!(ready.dequeue(), Some(1));
    assert_eq!(ready.dequeue(), None);
}

#[test]
fn ready_queue_takes_its_full_capacity() {
    let mut ready = ReadyQueue::new();
    for task_id in 0..READY_CAPACITY {
        assert_eq!(wake_task(&mut ready, task_id), Ok(()));
    }
    for task_id in 0..READY_CAPACITY {
        assert_eq!(ready.dequeue(), Some(task_id));
    }
    assert_eq!(ready.dequeue(), None);
}

#[test]
fn one_wake_too_many_is_a_fault_and_loses_nothing() {
    let mut ready = ReadyQueue::new();
    for task_id in 0..READY_CAPACITY {
        assert_eq!(wake_task(&mut ready, task_id + 100), Ok(()));
    }
    assert_eq!(wake_task(&mut ready, 7), Err(Fault::ReadyQueueFull));
    assert_eq!(wake_task(&mut ready, 8), Err(Fault::ReadyQueueFull));
    for task_id in 0..READY_CAPACITY {
        assert_eq!(ready.dequeue(), Some(task_id + 100));
    }
    assert_eq!(ready.dequeue(), None);
}

#[test]
fn queue_is_usable_again_after_a_fault() {
    let mut ready = ReadyQueue::new();
    for _ in 0..READY_CAPACITY {
        assert_eq!(wake_task(&mut ready, 1), Ok(()));
    }
    assert_eq!(wake_task(&mut ready, 2), Err(Fault::ReadyQueueFull));
    assert_eq!(ready.dequeue(), Some(1));
    assert_eq!(wake_task(&mut ready, 2), Ok(()));
}

#[test]
fn queue_wraps_around_many_times() {
    let mut ready = ReadyQueue::new();
    for round in 0..1000usize {
        assert_eq!(wake_task(&mut ready, round), Ok(()));
        assert_eq!(wake_task(&mut ready, round + 1), Ok(()));
        assert_eq!(ready.dequeue(), Some(round));
        assert_eq!(ready.dequeue(), Some(round + 1));
    }
    assert_eq!(ready.dequeue(), None);
}

#[test]
fn start_tasks_seeds_every_task_once() {
    let mut ready = ReadyQueue::new();
    assert_eq!(start_tasks(&mut ready, 3), Ok(()));
    assert_eq!(ready.dequeue(), Some(0));
    assert_eq!(ready.dequeue(), Some(1));
    assert_eq!(ready.dequeue(), Some(2));
    assert_eq!(ready.dequeue(), None);
}

#[test]
fn start_tasks_with_no_task_does_nothing() {
    let mut ready = ReadyQueue::new();
    assert_eq!(start_tasks(&mut ready, 0), Ok(()));
    assert_eq!(ready.dequeue(), None);
}

#[test]
fn start_tasks_faults_at_the_first_task_that_does_not_fit() {
    let mut ready = ReadyQueue::new();
    assert_eq!(wake_task(&mut ready, 9), Ok(()));
    assert_eq!(start_tasks(&mut ready, READY_CAPACITY), Err(Fault::ReadyQueueFull));
    assert_eq!(ready.dequeue(), Some(9));
    for task_id in 0..READY_CAPACITY - 1 {
        assert_eq!(ready.dequeue(), Some(task_id));
    }
    assert_eq!(ready.dequeue(), None);
}
