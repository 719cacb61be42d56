use rc_async::sync::oneshot::{channel, Channel, Reciever};
use rc_async::task;
use std::task::Poll;

// The wakers of the tasks in these scenes are plain numbers; the test plays
// the host: it polls what a task's computation awaits and notifies the wakers
// that the library hands back.
const TASK: usize = 1;
const OUTER: usize = 2;

#[test]
fn oneshot_test() {
    let mut rv = channel::<usize, usize>();
    let sd = rv.sender();
    // the task's computation awaits the receiver and returns its value
    let mut handle = task::spawn::<usize, usize>(rv.poll(TASK));
    assert!(!handle.is_ready());
    assert!(handle.poll_rc_nocx() == Poll::Pending);
    let woken = sd.send(Some(&mut rv), 1);
    assert_eq!(woken, Ok(Some(TASK)));
    if handle.wake() {
        let outcome = rv.poll(TASK);
        assert_eq!(handle.resume(outcome), None);
    }
    assert!(handle.is_ready());
    assert!(handle.poll_rc_nocx() == Poll::Ready(1));
}

#[test]
fn test2() {
    let mut rv = channel::<usize, usize>();
    let sd = rv.sender();
    // the first computation awaits the receiver, the second the first's handle
    let mut handle1 = task::spawn::<usize, usize>(rv.poll(TASK));
    let mut handle2 = task::spawn::<usize, usize>(handle1.poll(OUTER));
    assert!(!handle2.is_ready());
    assert!(handle2.poll_rc_nocx() == Poll::Pending);
    let woken = sd.send(Some(&mut rv), 1);
    assert_eq!(woken, Ok(Some(TASK)));
    assert!(handle1.wake());
    let outcome = rv.poll(TASK);
    let next = handle1.resume(outcome);
    assert_eq!(next, Some(OUTER));
    assert!(handle2.wake());
    let outcome = handle1.poll(OUTER);
    assert_eq!(handle2.resume(outcome), None);
    assert!(handle2.is_ready());
    assert!(handle2.poll_rc_nocx() == Poll::Ready(1));
}

#[test]
fn oneshot_delivers_exactly_once() {
    let mut rv = channel::<String, u8>();
    let sd = rv.sender();
    assert!(!rv.is_completed());
    assert_eq!(sd.send(Some(&mut rv), String::from("v")), Ok(None));
    assert!(!rv.is_completed());
    assert!(rv.poll(3) == Poll::Ready(String::from("v")));
    assert!(rv.is_completed());
}

#[test]
fn oneshot_send_without_waiter_notifies_nobody() {
    let mut rv = Reciever::<u32, u8>::new();
    let sd = rv.sender();
    assert_eq!(sd.send(Some(&mut rv), 7), Ok(None));
    assert!(rv.poll(1) == Poll::Ready(7));
}

#[test]
fn oneshot_closed_when_receiver_is_gone() {
    let rv = channel::<u32, u8>();
    let sd = rv.sender();
    drop(rv);
    assert_eq!(sd.send(None::<&mut Reciever<u32, u8>>, 7), Err(()));
}

#[test]
fn oneshot_latest_waker_wins() {
    let mut rv = channel::<u32, u8>();
    assert!(rv.poll(1) == Poll::Pending);
    assert!(rv.poll(2) == Poll::Pending);
    let sd = rv.sender();
    assert_eq!(sd.send(Some(&mut rv), 9), Ok(Some(2)));
}

#[test]
fn slot_phases() {
    let mut c = Channel::<u32, u8>::new();
    assert!(!c.is_ready());
    assert!(!c.is_completed());
    assert!(c.poll_ref_nocx() == Poll::Pending);
    assert!(c.poll_ref(4) == Poll::Pending);
    assert_eq!(c.waker, Some(4));
    assert_eq!(c.send(11), Some(4));
    assert_eq!(c.waker, None);
    assert!(c.is_ready());
    assert!(!c.is_completed());
    assert!(c.poll_ref_nocx() == Poll::Ready(11));
    assert!(c.is_completed());
    assert!(!c.is_ready());
}

#[test]
fn slot_detach_keeps_the_result() {
    let mut c = Channel::<u32, u8>::new();
    assert!(c.poll_ref(4) == Poll::Pending);
    assert_eq!(c.detach(), Some(4));
    assert_eq!(c.detach(), None);
    assert!(c.result == Some(Poll::Pending));
}

#[test]
fn slot_poll_of_ready_value_ignores_the_waker() {
    let mut c = Channel::<u32, u8>::new();
    assert_eq!(c.send(5), None);
    assert!(c.poll_ref(9) == Poll::Ready(5));
    assert_eq!(c.waker, None);
}
