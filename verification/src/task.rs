//! Tasks: a suspendable computation together with the completion slot for
//! its output.
//!
//! The computation itself is run by the host. A task here is the part that
//! decides: whether a wake-up polls the computation at all, and what becomes
//! of the outcome of a poll.

use crate::sync::oneshot::Channel;
use core::task::Poll;
use vstd::prelude::*;

verus! {

/// Whether a wake-up of a task in state `c` polls its computation: not once
/// the output was produced, observed or not.
pub open spec fn wants_poll<T, W>(c: Channel<T, W>) -> bool {
    !c.completed() && !c.ready()
}

/// The task's slot after a poll of its computation came back with `outcome`.
pub open spec fn settled<T, W>(c: Channel<T, W>, outcome: Poll<T>) -> Channel<T, W> {
    match outcome {
        Poll::Ready(v) => c.sent(v),
        Poll::Pending => c,
    }
}

/// The state of one task: the completion slot for its computation's output,
/// with the waker of whoever awaits the task.
pub struct Task<T, W> {
    chan: Channel<T, W>,
}

impl<T, W> View for Task<T, W> {
    type V = Channel<T, W>;

    closed spec fn view(&self) -> Channel<T, W> {
        self.chan
    }
}

impl<T, W> Task<T, W> {
    /// A task whose computation was not polled yet.
    pub fn new() -> (t: Self)
        ensures
            t@ == (Channel::<T, W> { result: Some(Poll::Pending), waker: None }),
    {
        Task { chan: Channel::new() }
    }

    pub fn is_ready(&self) -> (b: bool)
        ensures
            b == self@.ready(),
    {
        self.chan.is_ready()
    }

    pub fn is_completed(&self) -> (b: bool)
        ensures
            b == self@.completed(),
    {
        self.chan.is_completed()
    }

    /// Observes the output without registering interest.
    pub fn poll_rc_nocx(&mut self) -> (p: Poll<T>)
        requires
            !old(self)@.completed(),
        ensures
            p == old(self)@.outcome(),
            final(self)@ == old(self)@.observed(),
    {
        self.chan.poll_ref_nocx()
    }

    /// Awaits the output on behalf of the party that `waker` notifies.
    pub fn poll_rc(&mut self, waker: W) -> (p: Poll<T>)
        requires
            !old(self)@.completed(),
        ensures
            p == old(self)@.outcome(),
            final(self)@ == old(self)@.awaited(waker),
    {
        self.chan.poll_ref(waker)
    }

    /// A wake-up arrives: says whether the computation is to be polled now.
    /// The task itself is left as it is.
    pub fn wake_by_ref(&self) -> (poll_now: bool)
        ensures
            poll_now == wants_poll(self@),
    {
        !(self.is_completed() || self.is_ready())
    }

    /// The poll that a wake-up asked for came back with `outcome`. A final
    /// value is stored as the task's output, and the waker of whoever awaits
    /// the task is handed back to be notified; otherwise nothing changes.
    pub fn settle(&mut self, outcome: Poll<T>) -> (notify: Option<W>)
        requires
            !old(self)@.completed(),
        ensures
            final(self)@ == settled(old(self)@, outcome),
            notify == (match outcome {
                Poll::Ready(_) => old(self)@.waker,
                Poll::Pending => None,
            }),
    {
        match outcome {
            Poll::Ready(a) => self.chan.send(a),
            Poll::Pending => None,
        }
    }
}

/// The handle of a spawned task: through it the task's output is awaited or
/// inspected, and the task's wake-ups are decided.
pub struct JoinHandle<T, W> {
    task: Task<T, W>,
}

impl<T, W> View for JoinHandle<T, W> {
    type V = Channel<T, W>;

    closed spec fn view(&self) -> Channel<T, W> {
        self.task@
    }
}

impl<T, W> JoinHandle<T, W> {
    /// True once the output was produced and not yet observed.
    pub fn is_ready(&self) -> (b: bool)
        ensures
            b == self@.ready(),
    {
        self.task.is_ready()
    }

    /// True once the output was observed.
    pub fn is_completed(&self) -> (b: bool)
        ensures
            b == self@.completed(),
    {
        self.task.is_completed()
    }

    /// Observes the output without registering interest: a produced value
    /// is taken out, once.
    pub fn poll_rc_nocx(&mut self) -> (p: Poll<T>)
        requires
            !old(self)@.completed(),
        ensures
            p == old(self)@.outcome(),
            final(self)@ == old(self)@.observed(),
    {
        self.task.poll_rc_nocx()
    }

    /// Awaits the output on behalf of the party that `waker` notifies: a
    /// produced value is taken out, once; otherwise `waker` is registered.
    pub fn poll(&mut self, waker: W) -> (p: Poll<T>)
        requires
            !old(self)@.completed(),
        ensures
            p == old(self)@.outcome(),
            final(self)@ == old(self)@.awaited(waker),
    {
        self.task.poll_rc(waker)
    }

    /// A wake-up of the task arrives: says whether its computation is to be
    /// polled now. A task whose output was produced ignores it.
    pub fn wake(&self) -> (poll_now: bool)
        ensures
            poll_now == wants_poll(self@),
    {
        self.task.wake_by_ref()
    }

    /// Hands the task the outcome of the poll that a wake-up asked for, and
    /// gets the waker to notify, if the task finished and somebody awaits it.
    pub fn resume(&mut self, outcome: Poll<T>) -> (notify: Option<W>)
        requires
            !old(self)@.completed(),
        ensures
            final(self)@ == settled(old(self)@, outcome),
            notify == (match outcome {
                Poll::Ready(_) => old(self)@.waker,
                Poll::Pending => None,
            }),
    {
        self.task.settle(outcome)
    }
}

/// Spawns a task. Its computation is polled once at once, and `first` is the
/// outcome of that poll: the handle is ready if the computation finished in
/// it, and pending otherwise. Nobody awaits the task yet.
pub fn spawn<T, W>(first: Poll<T>) -> (handle: JoinHandle<T, W>)
    ensures
        handle@ == (Channel::<T, W> { result: Some(first), waker: None }),
{
    let mut task = Task::new();
    if task.wake_by_ref() {
        let _ = task.settle(first);
    }
    JoinHandle { task }
}

/// Wake-ups are idempotent once a task finished. A task that was handed a
/// final value ignores every later wake-up, before its output was observed
/// and after; a wake-up whose poll comes back pending leaves the task as it
/// was.
pub proof fn lemma_finished_task_ignores_wake<T, W>(c: Channel<T, W>, v: T, w: W)
    ensures
        !wants_poll(settled(c, Poll::Ready(v))),
        !wants_poll(settled(c, Poll::Ready(v)).observed()),
        !wants_poll(settled(c, Poll::Ready(v)).awaited(w)),
        settled(c, Poll::<T>::Pending) == c,
{
}

} // verus!
