//! One-shot channel: one value, one producer, one consumer.
//!
//! The shared cell of the channel is the [`Channel`] completion slot. The
//! receiving side owns it; the sending side reaches it only while the
//! receiving side is alive, so `send` is handed the receiver (or nothing, once
//! it is gone) by whoever keeps the two sides together.

use core::marker::PhantomData;
use core::task::Poll;
use vstd::prelude::*;

verus! {

/// A completion slot and the waker of the single party awaiting it.
///
/// `result` is `Some(Pending)` while no value was produced, `Some(Ready(v))`
/// once `v` was produced and not yet observed, and `None` once it was
/// observed. `waker` is `None` when nobody asked to be notified.
pub struct Channel<T, W> {
    pub result: Option<Poll<T>>,
    pub waker: Option<W>,
}

impl<T, W> Channel<T, W> {
    /// The value was observed: the slot is spent.
    pub open spec fn completed(self) -> bool {
        self.result is None
    }

    /// A value was produced and nobody observed it yet.
    pub open spec fn ready(self) -> bool {
        self.result matches Some(Poll::Ready(_))
    }

    /// The slot after `v` was sent into it.
    pub open spec fn sent(self, v: T) -> Self {
        Channel { result: Some(Poll::Ready(v)), waker: None }
    }

    /// What a poll of the slot yields.
    pub open spec fn outcome(self) -> Poll<T>
        recommends
            !self.completed(),
    {
        match self.result {
            Some(Poll::Ready(v)) => Poll::Ready(v),
            _ => Poll::Pending,
        }
    }

    /// The slot after a poll that registers no waker.
    pub open spec fn observed(self) -> Self
        recommends
            !self.completed(),
    {
        if self.ready() {
            Channel { result: None, waker: self.waker }
        } else {
            self
        }
    }

    /// The slot after a poll on behalf of the party that `w` notifies.
    pub open spec fn awaited(self, w: W) -> Self
        recommends
            !self.completed(),
    {
        if self.ready() {
            Channel { result: None, waker: self.waker }
        } else {
            Channel { result: self.result, waker: Some(w) }
        }
    }

    /// A pending slot that nobody awaits.
    pub fn new() -> (c: Self)
        ensures
            c.result == Some(Poll::<T>::Pending),
            c.waker is None,
    {
        Channel { result: Some(Poll::Pending), waker: None }
    }

    /// Stores `v` and hands back the waker to notify, if one was registered.
    /// A slot whose value was already observed takes no further value.
    pub fn send(&mut self, v: T) -> (notify: Option<W>)
        requires
            !old(self).completed(),
        ensures
            *final(self) == old(self).sent(v),
            notify == old(self).waker,
    {
        self.result = Some(Poll::Ready(v));
        self.detach()
    }

    pub fn is_ready(&self) -> (b: bool)
        ensures
            b == self.ready(),
    {
        match &self.result {
            Some(Poll::Ready(_)) => true,
            _ => false,
        }
    }

    pub fn is_completed(&self) -> (b: bool)
        ensures
            b == self.completed(),
    {
        self.result.is_none()
    }

    /// Withdraws the registered waker, leaving none.
    pub fn detach(&mut self) -> (w: Option<W>)
        ensures
            w == old(self).waker,
            final(self).waker is None,
            final(self).result == old(self).result,
    {
        self.waker.take()
    }

    /// Observes the slot without registering interest: a ready value is
    /// taken out, exactly once, and the slot is spent.
    pub fn poll_ref_nocx(&mut self) -> (p: Poll<T>)
        requires
            !old(self).completed(),
        ensures
            p == old(self).outcome(),
            *final(self) == old(self).observed(),
    {
        if self.is_ready() {
            let taken = self.result.take();
            taken.unwrap()
        } else {
            Poll::Pending
        }
    }

    /// Observes the slot on behalf of the party that `waker` notifies: a
    /// ready value is taken out; otherwise `waker` replaces whatever waker
    /// was registered before.
    pub fn poll_ref(&mut self, waker: W) -> (p: Poll<T>)
        requires
            !old(self).completed(),
        ensures
            p == old(self).outcome(),
            *final(self) == old(self).awaited(waker),
    {
        let result = self.poll_ref_nocx();
        if let Poll::Pending = result {
            self.waker = Some(waker);
        }
        result
    }
}

/// The receiving side: it owns the channel's slot.
pub struct Reciever<T, W> {
    chan: Channel<T, W>,
}

impl<T, W> View for Reciever<T, W> {
    type V = Channel<T, W>;

    closed spec fn view(&self) -> Channel<T, W> {
        self.chan
    }
}

impl<T, W> Reciever<T, W> {
    pub fn new() -> (r: Self)
        ensures
            r@ == (Channel::<T, W> { result: Some(Poll::Pending), waker: None }),
    {
        Reciever { chan: Channel::new() }
    }

    /// A sending handle for this receiver.
    pub fn sender(&self) -> (s: Sender<T>) {
        Sender { marker: PhantomData }
    }

    pub fn is_completed(&self) -> (b: bool)
        ensures
            b == self@.completed(),
    {
        self.chan.is_completed()
    }

    /// Awaits the value on behalf of the party that `waker` notifies.
    pub fn poll(&mut self, waker: W) -> (p: Poll<T>)
        requires
            !old(self)@.completed(),
        ensures
            p == old(self)@.outcome(),
            final(self)@ == old(self)@.awaited(waker),
    {
        self.chan.poll_ref(waker)
    }
}

/// The sending side. It holds no part of the channel: the receiver it is
/// paired with is handed to `send`.
pub struct Sender<T> {
    marker: PhantomData<T>,
}

impl<T> Sender<T> {
    /// Sends `v` to the paired receiver. `target` is that receiver, or `None`
    /// when it no longer exists; then the channel is closed and the value is
    /// dropped. Otherwise the value is stored, and the waker to notify, if
    /// any, is handed back.
    pub fn send<W>(self, target: Option<&mut Reciever<T, W>>, v: T) -> (sent: Result<Option<W>, ()>)
        requires
            target matches Some(r) ==> !r@.completed(),
        ensures
            target is None <==> sent is Err,
            target matches Some(r) ==> sent == Ok::<Option<W>, ()>(r@.waker) && final(r)@ == r@.sent(v),
    {
        match target {
            None => Err(()),
            Some(r) => Ok(r.chan.send(v)),
        }
    }
}

/// A fresh one-shot channel, as its receiving side.
pub fn channel<T, W>() -> (r: Reciever<T, W>)
    ensures
        r@ == (Channel::<T, W> { result: Some(Poll::Pending), waker: None }),
{
    Reciever::new()
}

/// A value sent into a channel is what the receiver's next poll yields, and
/// that poll spends the channel: from then on it accepts neither a send nor
/// a poll.
pub proof fn lemma_delivers_exactly_once<T, W>(c: Channel<T, W>, v: T, w: W)
    ensures
        c.sent(v).outcome() == Poll::Ready(v),
        c.sent(v).awaited(w).completed(),
        c.sent(v).observed().completed(),
        !c.sent(v).awaited(w).ready(),
{
}

} // verus!
