//! The errors that the endpoints of a channel report.
use vstd::prelude::*;

verus! {

#[verifier::external_type_specification]
#[verifier::external_body]
pub struct ExFormatter<'a>(core::fmt::Formatter<'a>);

#[verifier::external_type_specification]
#[verifier::external_body]
pub struct ExFmtError(core::fmt::Error);

/// Calls `core::fmt::Formatter::write_str` with `text`. Nothing is claimed of its result.
#[verifier::external_body]
fn write_text(f: &mut core::fmt::Formatter<'_>, text: &str) -> Result<(), core::fmt::Error> {
    f.write_str(text)
}

impl<T> core::fmt::Debug for SendError<T> {
    fn fmt(&self, f: &mut core::fmt::Formatter<'_>) -> Result<(), core::fmt::Error> {
        write_text(f, "SendError<T>(_)")
    }
}

/// An error returned when trying to send on a closed channel: the receiver was already dropped.
///
/// The message that could not be sent can be retrieved again with [`SendError::into_inner`].
/// The error keeps the message on the heap, so that it stays one pointer wide whatever the
/// size of the message.
pub struct SendError<T> {
    message: Box<T>,
}

impl<T> SendError<T> {
    /// The message that could not be sent.
    pub closed spec fn message(&self) -> T {
        *self.message
    }

    pub(crate) fn new(message: T) -> (e: Self)
        ensures
            e.message() == message,
    {
        SendError { message: Box::new(message) }
    }

    /// Consumes the error and returns the message that failed to be sent.
    pub fn into_inner(self) -> (message: T)
        ensures
            message == self.message(),
    {
        *self.message
    }

    /// Gets a reference to the message that failed to be sent.
    pub fn as_inner(&self) -> (message: &T)
        ensures
            *message == self.message(),
    {
        &self.message
    }

    /// The text that describes this error.
    pub fn to_string(&self) -> (s: String)
        ensures
            s@ == "sending on a closed channel"@,
    {
        "sending on a closed channel".to_owned()
    }
}

/// An error returned from receiving methods that block or wait until a message is available.
///
/// The receive operation can only fail if the sender was dropped before sending any message,
/// or if a message has already been received on the channel.
#[derive(Debug, Copy, Clone, PartialEq, Eq, Hash, Structural)]
pub struct RecvError;

impl RecvError {
    /// The text that describes this error.
    pub fn to_string(&self) -> (s: String)
        ensures
            s@ == "receiving on a closed channel"@,
    {
        "receiving on a closed channel".to_owned()
    }
}

/// An error returned when failing to receive a message in the non-blocking
/// [`Channel::try_recv`](crate::channel::Channel::try_recv).
#[derive(Debug, Copy, Clone, PartialEq, Eq, Hash, Structural)]
pub enum TryRecvError {
    /// The channel is still open, but there was no message present in it.
    Empty,
    /// The channel is closed. Either the sender was dropped before sending any message, or the
    /// message has already been extracted from the receiver.
    Disconnected,
}

impl TryRecvError {
    /// The text that describes this error.
    pub fn to_string(&self) -> (s: String)
        ensures
            s@ == (match self {
                TryRecvError::Empty => "receiving on an empty channel"@,
                TryRecvError::Disconnected => "receiving on a closed channel"@,
            }),
    {
        match self {
            TryRecvError::Empty => "receiving on an empty channel".to_owned(),
            TryRecvError::Disconnected => "receiving on a closed channel".to_owned(),
        }
    }
}

/// An error returned when failing to receive a message in a method that blocks or waits for a
/// message for a while, but gives up after a timeout.
#[derive(Debug, Copy, Clone, PartialEq, Eq, Hash, Structural)]
pub enum RecvTimeoutError {
    /// No message arrived on the channel before the timeout was reached. The channel is still
    /// open.
    Timeout,
    /// The channel is closed. Either the sender was dropped before sending any message, or the
    /// message has already been extracted from the receiver.
    Disconnected,
}

impl RecvTimeoutError {
    /// The text that describes this error.
    pub fn to_string(&self) -> (s: String)
        ensures
            s@ == (match self {
                RecvTimeoutError::Timeout => "timed out waiting on channel"@,
                RecvTimeoutError::Disconnected => "channel is empty and sending half is closed"@,
            }),
    {
        match self {
            RecvTimeoutError::Timeout => "timed out waiting on channel".to_owned(),
            RecvTimeoutError::Disconnected => "channel is empty and sending half is closed".to_owned(),
        }
    }
}

} // verus!
