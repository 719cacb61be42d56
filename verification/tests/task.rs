use rc_async::task::{spawn, JoinHandle, Task};
use std::task::Poll;

#[test]
fn spawn_of_finished_computation_is_ready() {
    let mut handle: JoinHandle<u32, u8> = spawn(Poll::Ready(3));
    assert!(handle.is_ready());
    assert!(!handle.is_completed());
    assert!(!handle.wake());
    assert!(handle.poll_rc_nocx() == Poll::Ready(3));
    assert!(handle.is_completed());
    assert!(!handle.is_ready());
}

#[test]
fn spawn_of_suspended_computation_is_pending() {
    let mut handle: JoinHandle<u32, u8> = spawn(Poll::Pending);
    assert!(!handle.is_ready());
    assert!(!handle.is_completed());
    assert!(handle.wake());
    assert!(handle.poll_rc_nocx() == Poll::Pending);
}

#[test]
fn wake_of_finished_task_is_ignored() {
    let mut handle: JoinHandle<u32, u8> = spawn(Poll::Pending);
    assert!(handle.poll(6) == Poll::Pending);
    assert!(handle.wake());
    assert_eq!(handle.resume(Poll::Pending), None);
    assert!(handle.wake());
    assert_eq!(handle.resume(Poll::Ready(8)), Some(6));
    // produced, not observed
    assert!(!handle.wake());
    assert!(handle.is_ready());
    assert!(handle.poll(6) == Poll::Ready(8));
    // observed
    assert!(!handle.wake());
    assert!(handle.is_completed());
}

#[test]
fn task_state_machine() {
    let mut task = Task::<u32, u8>::new();
    assert!(task.wake_by_ref());
    assert!(task.poll_rc(1) == Poll::Pending);
    assert_eq!(task.settle(Poll::Pending), None);
    assert!(!task.is_ready());
    assert_eq!(task.settle(Poll::Ready(2)), Some(1));
    assert!(task.is_ready());
    assert!(!task.wake_by_ref());
    assert!(task.poll_rc_nocx() == Poll::Ready(2));
    assert!(task.is_completed());
    assert!(!task.wake_by_ref());
}
