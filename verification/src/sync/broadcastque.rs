//! Broadcast queue: a broadcast channel whose sender says, with each value,
//! how many of the waiting consumers it releases. They are released in order
//! of arrival; the others keep their places for a later send.
//!
//! The channel holds what a broadcast channel holds, and a send is carried
//! out in the same way: one delivery per released waker, each stored with
//! `deliver` before its waker is notified.

use crate::sync::broadcast::{delivers, lemma_served_leaves_nothing, State};
use core::marker::PhantomData;
use core::task::Poll;
use std::collections::VecDeque;
use vstd::prelude::*;

verus! {

/// The sending side: it owns the channel.
pub struct Sender<T, W> {
    result: Poll<T>,
    waker: VecDeque<W>,
}

impl<T, W> View for Sender<T, W> {
    type V = State<T, W>;

    closed spec fn view(&self) -> State<T, W> {
        State { slot: self.result, waiters: self.waker@ }
    }
}

impl<T, W> Sender<T, W> {
    /// Polls the channel on behalf of the consumer that `waker` notifies:
    /// the slot's content is taken out, and if there was none the waker
    /// joins the queue, last.
    pub fn poll_ref(&mut self, waker: W) -> (p: Poll<T>)
        ensures
            p == old(self)@.slot,
            final(self)@ == old(self)@.polled(waker),
    {
        let mut result = Poll::Pending;
        core::mem::swap(&mut self.result, &mut result);
        if let Poll::Pending = result {
            self.waker.push_back(waker);
        }
        result
    }

    pub fn new() -> (s: Self)
        ensures
            s@ == State::<T, W>::idle(),
    {
        Sender { result: Poll::Pending, waker: VecDeque::new() }
    }

    /// Stores `v` in the slot for the consumer that is notified next.
    pub fn deliver(&mut self, v: T)
        ensures
            final(self)@ == old(self)@.delivered(v),
    {
        self.result = Poll::Ready(v);
    }

    /// Sends `v` to at most `count` of the waiting consumers, the earliest
    /// first. The plan pairs each released waker, in order of arrival, with
    /// its copy of `v`; the other waiters stay queued in their order. Where
    /// fewer than `count` wait, all are released and the rest of the
    /// allowance lapses.
    pub fn send(&mut self, v: T, count: usize) -> (plan: Vec<(W, T)>) where T: Clone
        ensures
            delivers(plan@, old(self)@.released(count as nat), v),
            final(self)@ == old(self)@.retained(count as nat),
    {
        let waiting = self.waker.len();
        let width: usize = if waiting < count { waiting } else { count };
        let ghost before = self@;
        let mut plan: Vec<(W, T)> = Vec::new();
        let mut i: usize = 0;
        while i < width
            invariant
                i <= width <= before.waiters.len(),
                width == before.width(count as nat),
                plan@.len() == i,
                self@.slot == before.slot,
                self@.waiters == before.waiters.skip(i as int),
                delivers(plan@, before.waiters.take(i as int), v),
            decreases width - i,
        {
            let next = self.waker.pop_front();
            if let Some(w) = next {
                plan.push((w, v.clone()));
            }
            i += 1;
            assert(self@.waiters =~= before.waiters.skip(i as int));
        }
        plan
    }

    /// A receiving handle for this channel.
    pub fn reciever(&self) -> (r: Reciever<T>) {
        Reciever { marker: PhantomData }
    }
}

/// A receiving handle. It holds no part of the channel: the sender it came
/// from is handed to `poll_next`.
pub struct Reciever<T> {
    marker: PhantomData<T>,
}

impl<T> Reciever<T> {
    /// Fetches the next value on behalf of the consumer that `waker`
    /// notifies. `source` is the sender this handle came from, or `None`
    /// when it no longer exists: then the sequence has ended.
    pub fn poll_next<W>(&self, source: Option<&mut Sender<T, W>>, waker: W) -> (p: Poll<Option<T>>)
        ensures
            source is None ==> p == Poll::Ready(None::<T>),
            source matches Some(s) ==> final(s)@ == s@.polled(waker) && p == (match s@.slot {
                Poll::Ready(v) => Poll::Ready(Some(v)),
                Poll::Pending => Poll::Pending,
            }),
    {
        match source {
            None => Poll::Ready(None),
            Some(s) => match s.poll_ref(waker) {
                Poll::Ready(v) => Poll::Ready(Some(v)),
                Poll::Pending => Poll::Pending,
            },
        }
    }
}

/// A fresh broadcast queue, as its sending side.
pub fn channel<T, W>() -> (s: Sender<T, W>)
    ensures
        s@ == State::<T, W>::idle(),
{
    Sender::new()
}

/// A release goes by arrival and by count. Releasing at most `n` waiters
/// takes the `n` earliest, or all where fewer wait, and leaves the others
/// queued in their order; a later release of at most `m` then begins with
/// the first that was left, and goes on from there in the order of arrival.
pub proof fn lemma_release_respects_count<T, W>(s: State<T, W>, n: nat, m: nat)
    ensures
        s.released(n).len() == s.width(n),
        s.width(n) == (if n <= s.waiters.len() { n } else { s.waiters.len() }),
        s.released(n) + s.retained(n).waiters == s.waiters,
        forall|i: int| 0 <= i < s.width(n) ==> s.released(n)[i] == s.waiters[i],
        s.retained(n).waiters.len() == s.waiters.len() - s.width(n),
        forall|j: int| 0 <= j < s.retained(n).width(m) ==> #[trigger] s.retained(n).released(m)[j]
            == s.waiters[s.width(n) + j],
        s.retained(n).retained(m).waiters == s.waiters.skip((s.width(n) + s.retained(n).width(m)) as int),
{
    assert(s.released(n) + s.retained(n).waiters =~= s.waiters);
    assert(s.retained(n).retained(m).waiters =~= s.waiters.skip(
        (s.width(n) + s.retained(n).width(m)) as int,
    ));
}

/// A send serves the released and nobody else. Take a queue with an empty
/// slot, and a send of `v` that releases at most `n` waiters and serves them
/// in turn. Then each of the released finds `v` at its turn and takes it
/// out, and after the send the others are queued as they were, with nothing
/// in the slot for them or for anybody who polls later.
pub proof fn lemma_release_serves_the_earliest<T, W>(s: State<T, W>, v: T, n: nat)
    requires
        s.slot == Poll::<T>::Pending,
    ensures
        forall|i: nat|
            i < s.width(n) ==> {
                let turn = (#[trigger] s.retained(n).served(v, s.released(n), i)).delivered(v);
                turn.slot == Poll::Ready(v) && turn.polled(s.released(n)[i as int]) == s.retained(n)
            },
        s.retained(n).served(v, s.released(n), s.width(n)) == s.retained(n),
        s.retained(n).slot == Poll::<T>::Pending,
{
    assert forall|i: nat| i <= s.width(n) implies #[trigger] s.retained(n).served(v, s.released(n), i)
        == s.retained(n) by {
        lemma_served_leaves_nothing(s.retained(n), v, s.released(n), i);
    }
}

} // verus!
