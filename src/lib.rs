//! A multi-producer, single-consumer blocking channel built from a mutex and
//! a condition variable, with a count of live senders so that the receiver
//! learns when every producer is gone.
pub mod channel;
pub mod state;
mod sync;

pub use channel::{channel, Receiver, Sender};
pub use state::{ChannelModel, ChannelState, Step};
