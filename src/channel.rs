//! The two ends of a channel.
use crate::state::{ChannelState, Step};
use crate::sync::{guarded, lock, share, wait_while_empty};
use std::sync::{Arc, Condvar, Mutex};
use vstd::prelude::*;

verus! {

/// What every handle of one channel shares: the state behind its lock, and
/// the condition on which the receiver sleeps.
#[verifier::reject_recursive_types(T)]
struct Shared<T> {
    inner: Mutex<ChannelState<T>>,
    available: Condvar,
}

/// A handle that sends into a channel. It can be cloned; the channel closes
/// when the last one is released.
#[verifier::reject_recursive_types(T)]
pub struct Sender<T> {
    shared: Arc<Shared<T>>,
}

/// The one handle that receives from a channel.
#[verifier::reject_recursive_types(T)]
pub struct Receiver<T> {
    shared: Arc<Shared<T>>,
}

impl<T> Sender<T> {
    /// Whether `rx` receives what this sender sends.
    pub closed spec fn feeds(&self, rx: &Receiver<T>) -> bool {
        self.shared == rx.shared
    }

    /// Whether `o` sends into the same channel as this sender.
    pub closed spec fn shares_with(&self, o: &Sender<T>) -> bool {
        self.shared == o.shared
    }

    /// Appends `t` at the back of the queue and wakes the receiver. Never
    /// fails, even when the receiver is gone.
    pub fn send(&mut self, t: T) {
        {
            let mut g = lock(&self.shared.inner);
            guarded(&mut g).push(t);
        }
        self.shared.available.notify_one();
    }

    /// Gives up this sender: it no longer counts as live, and the last one to
    /// go wakes the receiver so that it sees the channel closed. A sender that
    /// is dropped without this call is still counted as live.
    pub fn release(self) {
        let was_last = {
            let mut g = lock(&self.shared.inner);
            let s = guarded(&mut g);
            // The count is at least one while this sender exists.
            if s.live_senders() > 0 {
                s.remove_sender()
            } else {
                false
            }
        };
        if was_last {
            self.shared.available.notify_one();
        }
    }
}

impl<T> Clone for Sender<T> {
    /// A second sender on the same channel, counted as live.
    fn clone(&self) -> (r: Self)
        ensures
            r.shares_with(self),
            forall|rx: &Receiver<T>| r.feeds(rx) == self.feeds(rx),
    {
        {
            let mut g = lock(&self.shared.inner);
            let s = guarded(&mut g);
            // Each sender holds a strong reference, and `Arc` aborts before
            // its count passes `isize::MAX`: the count never reaches this.
            if s.live_senders() < usize::MAX {
                s.add_sender();
            }
        }
        Sender { shared: share(&self.shared) }
    }
}

impl<T> Receiver<T> {
    /// Waits until a message is queued or no sender is left; returns the front
    /// message, or `None` once the channel is closed and drained.
    pub fn recv(&mut self) -> Option<T> {
        let g = lock(&self.shared.inner);
        let mut g = wait_while_empty(&self.shared.available, g);
        // The wait ends only on a state where `take` does not answer `Wait`.
        match guarded(&mut g).take() {
            Step::Item(t) => Some(t),
            _ => None,
        }
    }
}

/// A new channel: an empty queue, one sender and the receiver.
pub fn channel<T>() -> (r: (Sender<T>, Receiver<T>))
    ensures
        r.0.feeds(&r.1),
{
    let shared = Arc::new(Shared { inner: Mutex::new(ChannelState::new()), available: Condvar::new() });
    (Sender { shared: share(&shared) }, Receiver { shared: shared })
}

} // verus!
