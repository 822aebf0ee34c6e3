//! The state that a channel keeps under its lock, and the decisions taken on it.
use std::collections::VecDeque;
use vstd::prelude::*;

verus! {

/// What a receive finds when it looks at the state under the lock.
pub enum Step<T> {
    /// The front message, now removed from the queue.
    Item(T),
    /// The queue is empty and no sender is left: nothing will ever arrive.
    Closed,
    /// The queue is empty but some sender is alive: the receiver must wait.
    Wait,
}

/// The abstract value of a channel's state: the messages not yet received, in
/// order of sending, and the number of live senders.
pub struct ChannelModel<T> {
    pub pending: Seq<T>,
    pub live: nat,
}

impl<T> ChannelModel<T> {
    /// The state that a fresh channel starts in.
    pub open spec fn fresh() -> Self {
        ChannelModel { pending: Seq::empty(), live: 1 }
    }

    /// A send appends its message at the back.
    pub open spec fn send(self, v: T) -> Self {
        ChannelModel { pending: self.pending.push(v), live: self.live }
    }

    /// Cloning a sender adds one live sender.
    pub open spec fn clone_sender(self) -> Self {
        ChannelModel { pending: self.pending, live: self.live + 1 }
    }

    /// Dropping a sender removes one live sender.
    pub open spec fn drop_sender(self) -> Self {
        ChannelModel { pending: self.pending, live: (self.live - 1) as nat }
    }

    /// Whether a receiver that finds this state has to wait.
    pub open spec fn must_wait(self) -> bool {
        self.pending.len() == 0 && self.live > 0
    }

    /// One look of a receiver at the state: what it gets, and the state after.
    pub open spec fn recv(self) -> (Step<T>, Self) {
        if self.pending.len() > 0 {
            (Step::Item(self.pending[0]), ChannelModel { pending: self.pending.drop_first(), live: self.live })
        } else if self.live == 0 {
            (Step::Closed, self)
        } else {
            (Step::Wait, self)
        }
    }

    /// The state after sending each of `vs` in turn.
    pub open spec fn send_all(self, vs: Seq<T>) -> Self
        decreases vs.len(),
    {
        if vs.len() == 0 {
            self
        } else {
            self.send(vs[0]).send_all(vs.drop_first())
        }
    }

    /// What `n` receives in a row get, in order.
    pub open spec fn recv_n(self, n: nat) -> Seq<Step<T>>
        decreases n,
    {
        if n == 0 {
            Seq::empty()
        } else {
            seq![self.recv().0] + self.recv().1.recv_n((n - 1) as nat)
        }
    }
}

/// The queue of undelivered messages and the count of live senders, which a
/// channel reads and writes together under one lock.
pub struct ChannelState<T> {
    queue: VecDeque<T>,
    senders: usize,
}

impl<T> View for ChannelState<T> {
    type V = ChannelModel<T>;

    closed spec fn view(&self) -> ChannelModel<T> {
        ChannelModel { pending: self.queue@, live: self.senders as nat }
    }
}

impl<T> ChannelState<T> {
    /// An empty queue and one live sender.
    pub fn new() -> (s: Self)
        ensures
            s@ == ChannelModel::<T>::fresh(),
    {
        let s = ChannelState { queue: VecDeque::new(), senders: 1 };
        assert(s@.pending =~= Seq::<T>::empty());
        s
    }

    /// The number of live senders.
    pub fn live_senders(&self) -> (n: usize)
        ensures
            n == self@.live,
    {
        self.senders
    }

    /// The number of messages not yet received.
    pub fn len(&self) -> (n: usize)
        ensures
            n == self@.pending.len(),
    {
        self.queue.len()
    }

    /// Appends `t` at the back of the queue.
    pub fn push(&mut self, t: T)
        ensures
            final(self)@ == old(self)@.send(t),
    {
        self.queue.push_back(t);
    }

    /// Counts one more live sender.
    pub fn add_sender(&mut self)
        requires
            old(self)@.live < usize::MAX,
        ensures
            final(self)@ == old(self)@.clone_sender(),
    {
        self.senders = self.senders + 1;
    }

    /// Counts one sender fewer; tells whether it was the last one.
    pub fn remove_sender(&mut self) -> (was_last: bool)
        requires
            old(self)@.live > 0,
        ensures
            final(self)@ == old(self)@.drop_sender(),
            was_last == (final(self)@.live == 0),
    {
        self.senders = self.senders - 1;
        self.senders == 0
    }

    /// Whether a receiver has to wait: no message, but a sender is alive.
    pub fn must_wait(&self) -> (r: bool)
        ensures
            r == self@.must_wait(),
    {
        self.queue.len() == 0 && self.senders > 0
    }

    /// Takes the front message if there is one; otherwise tells whether the
    /// channel is closed or the receiver has to wait.
    pub fn take(&mut self) -> (r: Step<T>)
        ensures
            (r, final(self)@) == old(self)@.recv(),
    {
        match self.queue.pop_front() {
            Some(t) => Step::Item(t),
            None => {
                if self.senders == 0 {
                    Step::Closed
                } else {
                    Step::Wait
                }
            },
        }
    }
}

/// Messages sent before any receive come out in the order they were sent: from
/// a state with nothing pending, receiving as many times as there were sends
/// yields exactly those messages, first sent first.
pub proof fn lemma_fifo<T>(m: ChannelModel<T>, vs: Seq<T>)
    requires
        m.pending.len() == 0,
    ensures
        m.send_all(vs).recv_n(vs.len()) == vs.map_values(|v: T| Step::Item(v)),
{
    lemma_send_all_pending(m, vs);
    lemma_recv_drains(m.send_all(vs), vs.len());
    assert(m.pending + vs =~= vs);
}

/// Sending each of `vs` appends them, in order, to what is pending.
pub proof fn lemma_send_all_pending<T>(m: ChannelModel<T>, vs: Seq<T>)
    ensures
        m.send_all(vs).pending == m.pending + vs,
        m.send_all(vs).live == m.live,
    decreases vs.len(),
{
    if vs.len() > 0 {
        lemma_send_all_pending(m.send(vs[0]), vs.drop_first());
        assert(m.pending.push(vs[0]) + vs.drop_first() =~= m.pending + vs);
    }
}

/// Receiving `n` times from a state with at least `n` pending messages yields
/// its first `n` messages in order.
pub proof fn lemma_recv_drains<T>(m: ChannelModel<T>, n: nat)
    requires
        n <= m.pending.len(),
    ensures
        m.recv_n(n) == m.pending.take(n as int).map_values(|v: T| Step::Item(v)),
    decreases n,
{
    if n > 0 {
        let rest = m.recv().1;
        lemma_recv_drains(rest, (n - 1) as nat);
        assert(rest.pending =~= m.pending.drop_first());
        assert(seq![m.recv().0] + rest.recv_n((n - 1) as nat) =~= m.pending.take(n as int).map_values(
            |v: T| Step::Item(v),
        ));
    } else {
        assert(m.pending.take(0).map_values(|v: T| Step::Item(v)) =~= Seq::<Step<T>>::empty());
    }
}

/// A receiver that finds nothing pending while a sender lives waits, and goes
/// on waiting until a send or the loss of the last sender: a send gives it
/// that message, the release of a sender that was not the last leaves it
/// waiting, and the release of the last one closes the channel.
pub proof fn lemma_blocks_until_data<T>(m: ChannelModel<T>, v: T)
    requires
        m.pending.len() == 0,
        m.live > 0,
    ensures
        m.recv() == (Step::<T>::Wait, m),
        m.send(v).recv().0 == Step::Item(v),
        m.live > 1 ==> m.drop_sender().recv().0 == Step::<T>::Wait,
        m.live == 1 ==> m.drop_sender().recv().0 == Step::<T>::Closed,
{
}

/// With one sender and nothing pending, releasing the sender makes every
/// receive report the end of the stream: never a value, never a wait.
pub proof fn lemma_closure_detected<T>(m: ChannelModel<T>, n: nat)
    requires
        m.pending.len() == 0,
        m.live == 1,
    ensures
        m.drop_sender().recv_n(n) == Seq::new(n, |i: int| Step::<T>::Closed),
    decreases n,
{
    let c = m.drop_sender();
    assert(c.recv() == (Step::<T>::Closed, c));
    if n > 0 {
        lemma_closure_detected(m, (n - 1) as nat);
        assert(seq![Step::<T>::Closed] + c.recv_n((n - 1) as nat) =~= Seq::new(n, |i: int| Step::<T>::Closed));
    } else {
        assert(c.recv_n(0) =~= Seq::new(0, |i: int| Step::<T>::Closed));
    }
}

/// With two live senders, releasing one never makes a receive report the end
/// of the stream; releasing the other one as well, once nothing is pending,
/// does.
pub proof fn lemma_last_sender_closes<T>(m: ChannelModel<T>)
    requires
        m.live == 2,
    ensures
        m.drop_sender().recv().0 != Step::<T>::Closed,
        m.pending.len() == 0 ==> m.drop_sender().drop_sender().recv().0 == Step::<T>::Closed,
{
}

/// No message is lost or duplicated: a send adds its message once to what is
/// pending, and a receive that gets a message takes exactly that message off
/// the front, leaving the rest as it was.
pub proof fn lemma_each_message_once<T>(m: ChannelModel<T>, v: T)
    ensures
        m.send(v).pending.to_multiset() == m.pending.to_multiset().insert(v),
        m.recv().0 is Item ==> seq![m.recv().0->Item_0] + m.recv().1.pending == m.pending,
        !(m.recv().0 is Item) ==> m.recv().1 == m,
{
    vstd::seq_lib::to_multiset_build(m.pending, v);
    if m.pending.len() > 0 {
        assert(seq![m.pending[0]] + m.pending.drop_first() =~= m.pending);
    }
}

} // verus!
