//! Oneshot single-producer single-consumer channel: the verified protocol.
//!
//! A oneshot channel carries exactly one message from a sender to a receiver. Its shared part
//! is one state byte, a slot for the message and a slot for the waker of a waiting receiver.
//! Every step of either endpoint reads or updates the state byte once and decides from the
//! value it saw what to do next. [`Channel`](crate::channel::Channel) holds that shared part;
//! each of its operations states what it returns and how it moves the channel on, and
//! [`laws`] proves what holds across operations, whatever order the endpoints act in.

pub mod states;
pub mod errors;
pub mod sealed;
pub mod waker;
pub mod channel;
pub mod laws;

pub use channel::{next_receive_action, Channel, ChannelView, ReceiveAction, ReceiveStep, SenderDrop};
pub use errors::{RecvError, RecvTimeoutError, SendError, TryRecvError};
pub use waker::{AsyncWaker, DummyWaker, ReceiverWaker, SyncWaker, Waker};
