//! Broadcast channel: each value sent goes to every consumer that is waiting
//! at the moment of the send, in the order in which they began to wait.
//!
//! The channel keeps one value slot and the wakers of the waiting consumers.
//! A send takes the waiting wakers out as one snapshot and plans one
//! delivery per waker. Whoever carries the plan out takes the deliveries in
//! order and, for each, stores the value with `deliver` and then notifies
//! the waker, so that the notified consumer's poll takes the value out of
//! the slot before the next delivery is made.

use core::marker::PhantomData;
use core::task::Poll;
use vstd::prelude::*;

verus! {

/// What a broadcast channel holds: the value slot and the waiting wakers in
/// order of arrival.
pub struct State<T, W> {
    pub slot: Poll<T>,
    pub waiters: Seq<W>,
}

impl<T, W> State<T, W> {
    /// An empty slot and nobody waiting.
    pub open spec fn idle() -> Self {
        State { slot: Poll::Pending, waiters: Seq::empty() }
    }

    /// The channel after a consumer notified by `w` polled it: a value in
    /// the slot is taken out; with an empty slot the consumer joins the
    /// waiters, last.
    pub open spec fn polled(self, w: W) -> Self {
        match self.slot {
            Poll::Ready(_) => State { slot: Poll::Pending, waiters: self.waiters },
            Poll::Pending => State { slot: Poll::Pending, waiters: self.waiters.push(w) },
        }
    }

    /// The channel with `v` stored for the consumer notified next.
    pub open spec fn delivered(self, v: T) -> Self {
        State { slot: Poll::Ready(v), waiters: self.waiters }
    }

    /// How many waiters a release of at most `n` takes.
    pub open spec fn width(self, n: nat) -> nat {
        if n <= self.waiters.len() {
            n
        } else {
            self.waiters.len()
        }
    }

    /// The wakers that a release of at most `n` waiters takes: the earliest.
    pub open spec fn released(self, n: nat) -> Seq<W> {
        self.waiters.take(self.width(n) as int)
    }

    /// The channel after a release of at most `n` waiters.
    pub open spec fn retained(self, n: nat) -> Self {
        State { slot: self.slot, waiters: self.waiters.skip(self.width(n) as int) }
    }

    /// The channel after every waiter was released.
    pub open spec fn drained(self) -> Self {
        State { slot: self.slot, waiters: Seq::empty() }
    }

    /// The channel after the first `i` of the consumers in `woken` were
    /// served with `v`: for each in turn the value was stored, the consumer
    /// was notified and polled once.
    pub open spec fn served(self, v: T, woken: Seq<W>, i: nat) -> Self
        decreases i,
    {
        if i == 0 {
            self
        } else {
            self.served(v, woken, (i - 1) as nat).delivered(v).polled(woken[i - 1])
        }
    }
}

/// Whether `plan` pairs each of `wakers`, in order, with a copy of `v`.
pub open spec fn delivers<T: Clone, W>(plan: Seq<(W, T)>, wakers: Seq<W>, v: T) -> bool {
    &&& plan.len() == wakers.len()
    &&& forall|i: int| 0 <= i < plan.len() ==> (#[trigger] plan[i]).0 == wakers[i] && cloned(v, plan[i].1)
}

/// The sending side: it owns the channel.
pub struct Sender<T, W> {
    result: Poll<T>,
    waker: Vec<W>,
}

impl<T, W> View for Sender<T, W> {
    type V = State<T, W>;

    closed spec fn view(&self) -> State<T, W> {
        State { slot: self.result, waiters: self.waker@ }
    }
}

impl<T, W> Sender<T, W> {
    /// Polls the channel on behalf of the consumer that `waker` notifies:
    /// the slot's content is taken out, and if there was none the waker
    /// joins the waiters.
    pub fn poll_ref(&mut self, waker: W) -> (p: Poll<T>)
        ensures
            p == old(self)@.slot,
            final(self)@ == old(self)@.polled(waker),
    {
        let mut result = Poll::Pending;
        core::mem::swap(&mut self.result, &mut result);
        if let Poll::Pending = result {
            self.waker.push(waker);
        }
        result
    }

    pub fn new() -> (s: Self)
        ensures
            s@ == State::<T, W>::idle(),
    {
        Sender { result: Poll::Pending, waker: Vec::new() }
    }

    /// Takes every waiting waker out, in order of arrival.
    pub fn retrieve_wakers(&mut self) -> (wakers: Vec<W>)
        ensures
            wakers@ == old(self)@.waiters,
            final(self)@ == old(self)@.drained(),
    {
        let mut taken = Vec::new();
        core::mem::swap(&mut self.waker, &mut taken);
        taken
    }

    /// Stores `v` in the slot for the consumer that is notified next.
    pub fn deliver(&mut self, v: T)
        ensures
            final(self)@ == old(self)@.delivered(v),
    {
        self.result = Poll::Ready(v);
    }

    /// Sends `v` to everybody who is waiting now: the waiters are taken out
    /// as a snapshot, and the plan pairs each of them, in order of arrival,
    /// with its copy of `v`. Nobody else gets this value.
    pub fn send(&mut self, v: T) -> (plan: Vec<(W, T)>) where T: Clone
        ensures
            delivers(plan@, old(self)@.waiters, v),
            final(self)@ == old(self)@.drained(),
    {
        let mut wakers = self.retrieve_wakers();
        let ghost all = wakers@;
        let mut plan: Vec<(W, T)> = Vec::new();
        while wakers.len() > 0
            invariant
                plan@.len() + wakers@.len() == all.len(),
                wakers@ == all.skip(plan@.len() as int),
                delivers(plan@, all.take(plan@.len() as int), v),
            decreases wakers@.len(),
        {
            let w = wakers.remove(0);
            let copy = v.clone();
            plan.push((w, copy));
            assert(wakers@ =~= all.skip(plan@.len() as int));
        }
        assert(all.take(plan@.len() as int) =~= all);
        plan
    }

    /// A receiving handle for this channel.
    pub fn reciever(&self) -> (r: Reciever<T>) {
        Reciever { marker: PhantomData }
    }
}

/// A receiving handle. It holds no part of the channel: the sender it came
/// from is handed to `poll_next`.
pub struct Reciever<T> {
    marker: PhantomData<T>,
}

impl<T> Reciever<T> {
    /// Fetches the next value on behalf of the consumer that `waker`
    /// notifies. `source` is the sender this handle came from, or `None`
    /// when it no longer exists: then the sequence has ended.
    pub fn poll_next<W>(&self, source: Option<&mut Sender<T, W>>, waker: W) -> (p: Poll<Option<T>>)
        ensures
            source is None ==> p == Poll::Ready(None::<T>),
            source matches Some(s) ==> final(s)@ == s@.polled(waker) && p == (match s@.slot {
                Poll::Ready(v) => Poll::Ready(Some(v)),
                Poll::Pending => Poll::Pending,
            }),
    {
        match source {
            None => Poll::Ready(None),
            Some(s) => match s.poll_ref(waker) {
                Poll::Ready(v) => Poll::Ready(Some(v)),
                Poll::Pending => Poll::Pending,
            },
        }
    }
}

/// A fresh broadcast channel, as its sending side.
pub fn channel<T, W>() -> (s: Sender<T, W>)
    ensures
        s@ == State::<T, W>::idle(),
{
    Sender::new()
}

/// A value that is either known already or still owed by a producer: then
/// the channel is kept through which it will be announced.
pub enum MaybeReady<T, W> {
    Ready(T),
    Pending(Sender<T, W>),
}

impl<T: Clone, W> MaybeReady<T, W> {
    /// The wakers of those who wait for the value: none once it is known.
    pub open spec fn awaiting(self) -> Seq<W> {
        match self {
            MaybeReady::Ready(_) => Seq::empty(),
            MaybeReady::Pending(sd) => sd@.waiters,
        }
    }

    pub fn pending() -> (m: Self)
        ensures
            m matches MaybeReady::Pending(s) && s@ == State::<T, W>::idle(),
    {
        MaybeReady::Pending(channel())
    }

    pub fn ready(t: T) -> (m: Self)
        ensures
            m == MaybeReady::<T, W>::Ready(t),
    {
        MaybeReady::Ready(t)
    }

    pub fn is_ready(&self) -> (b: bool)
        ensures
            b == (*self is Ready),
    {
        match self {
            MaybeReady::Ready(_) => true,
            MaybeReady::Pending(_) => false,
        }
    }

    /// Makes the value known. The cell then holds a copy of `t`. If the
    /// value was still owed, `t` is sent, once, through the channel that the
    /// cell gives up, and the plan of that send is handed back; if a value
    /// was known already, nobody is notified.
    pub fn set(&mut self, t: T) -> (plan: Vec<(W, T)>)
        ensures
            *final(self) matches MaybeReady::Ready(kept) && cloned(t, kept),
            delivers(plan@, old(self).awaiting(), t),
    {
        let mut prior = MaybeReady::Ready(t.clone());
        core::mem::swap(self, &mut prior);
        match prior {
            MaybeReady::Pending(mut sd) => sd.send(t),
            MaybeReady::Ready(_) => Vec::new(),
        }
    }

    /// Makes the value known and gives up the channel, if the value was
    /// still owed, with its waiters as they are: the caller sends through it.
    pub fn sender(&mut self, t: T) -> (sd: Option<Sender<T, W>>)
        ensures
            *final(self) == MaybeReady::<T, W>::Ready(t),
            sd == (match *old(self) {
                MaybeReady::Pending(s) => Some(s),
                MaybeReady::Ready(_) => None,
            }),
    {
        let mut prior = MaybeReady::Ready(t);
        core::mem::swap(self, &mut prior);
        match prior {
            MaybeReady::Pending(sd) => Some(sd),
            MaybeReady::Ready(_) => None,
        }
    }

    /// Asks for the value on behalf of the party that `waker` notifies: a
    /// copy of the value if it is known; otherwise the channel is polled,
    /// where the party joins the waiters unless its value is there already.
    pub fn get(&mut self, waker: W) -> (p: Poll<T>)
        ensures
            match *old(self) {
                MaybeReady::Ready(a) => {
                    &&& p matches Poll::Ready(x) && cloned(a, x)
                    &&& *final(self) == *old(self)
                },
                MaybeReady::Pending(sd) => {
                    &&& p == sd@.slot
                    &&& *final(self) matches MaybeReady::Pending(sd2) && sd2@ == sd@.polled(waker)
                },
            },
    {
        match self {
            MaybeReady::Ready(a) => Poll::Ready(a.clone()),
            MaybeReady::Pending(sd) => sd.poll_ref(waker),
        }
    }

    /// Looks at the cell without waiting: a copy of the value if it is known.
    pub fn poll(&self) -> (p: Poll<T>)
        ensures
            match *self {
                MaybeReady::Ready(a) => p matches Poll::Ready(x) && cloned(a, x),
                MaybeReady::Pending(_) => p == Poll::<T>::Pending,
            },
    {
        match self {
            MaybeReady::Ready(a) => Poll::Ready(a.clone()),
            MaybeReady::Pending(_) => Poll::Pending,
        }
    }

    /// Looks at the cell without waiting: a copy of the value if it is known,
    /// as an option.
    pub fn poll_opt(&self) -> (p: Option<T>)
        ensures
            match *self {
                MaybeReady::Ready(a) => p matches Some(x) && cloned(a, x),
                MaybeReady::Pending(_) => p is None,
            },
    {
        match self {
            MaybeReady::Ready(a) => Some(a.clone()),
            MaybeReady::Pending(_) => None,
        }
    }
}

/// Serving consumers in turn leaves a channel with an empty slot as it was:
/// each of them takes out what was stored for it, and none of them joins the
/// waiters by that.
pub proof fn lemma_served_leaves_nothing<T, W>(s: State<T, W>, v: T, woken: Seq<W>, i: nat)
    requires
        s.slot == Poll::<T>::Pending,
    ensures
        s.served(v, woken, i) == s,
    decreases i,
{
    if i > 0 {
        lemma_served_leaves_nothing(s, v, woken, (i - 1) as nat);
    }
}

/// Fan-out goes by the snapshot. Take a channel with an empty slot on which
/// some consumers wait, and a send of `v` that serves them in turn. Then
/// every one of them finds `v` at its turn and takes it out, none of them
/// waits any longer, and a consumer that polls only after the send finds
/// nothing: it becomes the one waiter of the next send.
pub proof fn lemma_fan_out_is_a_snapshot<T, W>(s: State<T, W>, v: T, late: W)
    requires
        s.slot == Poll::<T>::Pending,
    ensures
        forall|i: nat|
            i < s.waiters.len() ==> {
                let turn = (#[trigger] s.drained().served(v, s.waiters, i)).delivered(v);
                turn.slot == Poll::Ready(v) && turn.polled(s.waiters[i as int]) == State::<T, W>::idle()
            },
        s.drained().served(v, s.waiters, s.waiters.len()) == State::<T, W>::idle(),
        State::<T, W>::idle().slot == Poll::<T>::Pending,
        State::<T, W>::idle().polled(late).waiters == seq![late],
{
    assert forall|i: nat| i <= s.waiters.len() implies #[trigger] s.drained().served(v, s.waiters, i)
        == State::<T, W>::idle() by {
        lemma_served_leaves_nothing(s.drained(), v, s.waiters, i);
    }
    assert(Seq::<W>::empty().push(late) =~= seq![late]);
}

} // verus!
