//! All the values that the state byte of a channel can have during its lifetime.
use vstd::prelude::*;

verus! {

/// The initial channel state. Active while both endpoints are still alive, no message has been
/// sent, and the receiver is not receiving.
pub const EMPTY: u8 = 0;

/// A message has been sent to the channel, but the receiver has not yet read it.
pub const MESSAGE: u8 = 1;

/// No message has yet been sent on the channel, but the receiver is currently receiving.
pub const RECEIVING: u8 = 2;

/// The channel has been closed. Either the sender or the receiver has been dropped, or the
/// message sent to the channel has already been received.
pub const DISCONNECTED: u8 = 3;

/// The four values that the state byte takes.
pub open spec fn is_state(s: u8) -> bool {
    s == EMPTY || s == MESSAGE || s == RECEIVING || s == DISCONNECTED
}

} // verus!
