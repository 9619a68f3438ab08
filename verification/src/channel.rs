//! The shared part of a oneshot channel and the operations of its two endpoints on it.
//!
//! Each operation reads or updates the state byte once (a load, a swap, a compare-and-swap, or a
//! load followed by a store that nobody else can race with) and then acts on what it saw. The
//! operations are the steps that the endpoints interleave: whatever the order in which the
//! sender and the receiver take their steps, every step keeps [`ChannelView::inv`].
use vstd::prelude::*;
use crate::errors::{RecvError, RecvTimeoutError, SendError, TryRecvError};
use crate::states::{is_state, DISCONNECTED, EMPTY, MESSAGE, RECEIVING};

verus! {

/// What a channel holds, as the proofs see it. Besides the state byte and the two slots it
/// records which endpoints are still alive, whether the receiver is waiting for a wakeup, and
/// the message that the sender handed over, if it did.
pub struct ChannelView<T, W> {
    pub state: u8,
    pub message: Option<T>,
    pub waker: Option<W>,
    pub sender_alive: bool,
    pub receiver_alive: bool,
    pub receiver_waiting: bool,
    pub sent: Option<T>,
}

/// What the receiver learns from one step of a receive operation.
#[derive(Debug, PartialEq, Eq)]
pub enum ReceiveStep<T> {
    /// The message, taken out of the channel. The channel is now disconnected.
    Message(T),
    /// The channel is disconnected: the sender was dropped before sending anything, or the
    /// message was already received.
    Disconnected,
    /// The sender is alive and has not sent anything, and no waker of the receiver is in the
    /// channel.
    Empty,
    /// The waker of the receiver is in the channel: the receiver has to wait to be woken.
    Waiting,
}

/// What the sender has to do after it was dropped.
#[derive(Debug, PartialEq, Eq)]
pub enum SenderDrop<W> {
    /// Nothing: the receiver is alive and not waiting.
    Nothing,
    /// Wake the receiver with this waker, so that it sees that the channel is disconnected.
    Wake(W),
    /// The receiver was already dropped: the sender is the last endpoint and frees the channel.
    Release,
}

/// What a receive operation does after a step.
#[derive(Debug, PartialEq, Eq)]
pub enum ReceiveAction {
    /// The receive is over: turn the step into its result.
    Finish,
    /// Offer a waker to the channel.
    Register,
    /// Wait to be woken (park the thread, or return `Pending` from a poll), then look again.
    Wait,
    /// The deadline has passed: stop waiting.
    Cancel,
    /// The receiver was polled before and its waker is still in the channel: a blocking receive
    /// may not be started now.
    Misuse,
}

/// What a receive operation does after `step`. `registered` tells whether this operation has
/// already offered its waker; `may_find_waiting` whether the operation may start while an
/// earlier poll's waker is still in the channel (so for a poll); `time_left` whether its
/// deadline, if it has one, has not passed.
pub open spec fn receive_action<T>(
    step: ReceiveStep<T>,
    registered: bool,
    may_find_waiting: bool,
    time_left: bool,
) -> ReceiveAction {
    match step {
        ReceiveStep::Message(_) => ReceiveAction::Finish,
        ReceiveStep::Disconnected => ReceiveAction::Finish,
        ReceiveStep::Empty => if registered {
            ReceiveAction::Finish
        } else {
            ReceiveAction::Register
        },
        ReceiveStep::Waiting => if !registered && !may_find_waiting {
            ReceiveAction::Misuse
        } else if time_left {
            ReceiveAction::Wait
        } else {
            ReceiveAction::Cancel
        },
    }
}

/// Decides what a receive operation does after `step`; see [`receive_action`].
pub fn next_receive_action<T>(
    step: &ReceiveStep<T>,
    registered: bool,
    may_find_waiting: bool,
    time_left: bool,
) -> (a: ReceiveAction)
    ensures
        a == receive_action(*step, registered, may_find_waiting, time_left),
        a is Finish <==> step.is_final() || (*step is Empty && registered),
        a is Register <==> *step is Empty && !registered,
        a is Misuse <==> *step is Waiting && !registered && !may_find_waiting,
        a is Wait <==> *step is Waiting && (registered || may_find_waiting) && time_left,
        a is Cancel <==> *step is Waiting && (registered || may_find_waiting) && !time_left,
{
    match step {
        ReceiveStep::Message(_) => ReceiveAction::Finish,
        ReceiveStep::Disconnected => ReceiveAction::Finish,
        ReceiveStep::Empty => if registered {
            ReceiveAction::Finish
        } else {
            ReceiveAction::Register
        },
        ReceiveStep::Waiting => if !registered && !may_find_waiting {
            ReceiveAction::Misuse
        } else if time_left {
            ReceiveAction::Wait
        } else {
            ReceiveAction::Cancel
        },
    }
}

impl<T> ReceiveStep<T> {
    /// Whether the receiver is done: it got the message or learned that none will come.
    pub open spec fn is_final(self) -> bool {
        self is Message || self is Disconnected
    }

    /// The result of a blocking receive that ended with this step.
    pub fn into_recv_result(self) -> (r: Result<T, RecvError>)
        requires
            self.is_final(),
        ensures
            self matches ReceiveStep::Message(m) ==> r == Ok::<T, RecvError>(m),
            self is Disconnected ==> r == Err::<T, RecvError>(RecvError),
    {
        match self {
            ReceiveStep::Message(message) => Ok(message),
            _ => Err(RecvError),
        }
    }

    /// The result of a receive with a deadline that ended with this step; `Empty` is the step
    /// of a receive that gave up waiting while the channel was open.
    pub fn into_timeout_result(self) -> (r: Result<T, RecvTimeoutError>)
        requires
            !(self is Waiting),
        ensures
            self matches ReceiveStep::Message(m) ==> r == Ok::<T, RecvTimeoutError>(m),
            self is Disconnected ==> r == Err::<T, RecvTimeoutError>(
                RecvTimeoutError::Disconnected,
            ),
            self is Empty ==> r == Err::<T, RecvTimeoutError>(RecvTimeoutError::Timeout),
    {
        match self {
            ReceiveStep::Message(message) => Ok(message),
            ReceiveStep::Disconnected => Err(RecvTimeoutError::Disconnected),
            _ => Err(RecvTimeoutError::Timeout),
        }
    }
}

impl<T, W> ChannelView<T, W> {
    /// A newly created channel.
    pub open spec fn initial() -> Self {
        ChannelView {
            state: EMPTY,
            message: None,
            waker: None,
            sender_alive: true,
            receiver_alive: true,
            receiver_waiting: false,
            sent: None,
        }
    }

    /// How the state byte, the two slots and the two endpoints agree at every step.
    pub open spec fn inv(self) -> bool {
        &&& is_state(self.state)
        &&& self.state == EMPTY ==> {
            &&& self.sender_alive && self.receiver_alive && !self.receiver_waiting
            &&& self.message is None && self.waker is None
        }
        &&& self.state == RECEIVING ==> {
            &&& self.sender_alive && self.receiver_alive && self.receiver_waiting
            &&& self.message is None && self.waker is Some
        }
        &&& self.state == MESSAGE ==> {
            &&& !self.sender_alive && self.receiver_alive
            &&& self.message is Some && self.message == self.sent && self.waker is None
        }
        &&& self.state == DISCONNECTED ==> {
            &&& !(self.sender_alive && self.receiver_alive)
            &&& self.message is None && self.waker is None
        }
        &&& self.sender_alive ==> self.sent is None
        &&& self.receiver_waiting ==> self.receiver_alive
    }

    /// Whether a message that is sent now reaches the receiver.
    pub open spec fn send_delivers(self) -> bool {
        self.state != DISCONNECTED
    }

    /// The channel after the sender sent `message`.
    pub open spec fn after_send(self, message: T) -> Self {
        if self.state == DISCONNECTED {
            ChannelView { sender_alive: false, sent: Some(message), ..self }
        } else {
            ChannelView {
                state: MESSAGE,
                message: Some(message),
                waker: None,
                sender_alive: false,
                sent: Some(message),
                ..self
            }
        }
    }

    /// The channel after the sender was dropped without sending.
    pub open spec fn after_drop_sender(self) -> Self {
        ChannelView { state: DISCONNECTED, waker: None, sender_alive: false, ..self }
    }

    /// What the sender has to do after it was dropped.
    pub open spec fn drop_sender_action(self) -> SenderDrop<W> {
        if self.state == EMPTY {
            SenderDrop::Nothing
        } else if self.state == RECEIVING {
            SenderDrop::Wake(self.waker.unwrap())
        } else {
            SenderDrop::Release
        }
    }

    /// The channel after the receiver took the message out of it, if there was one.
    pub open spec fn after_take(self) -> Self {
        if self.state == MESSAGE {
            ChannelView {
                state: DISCONNECTED,
                message: None,
                receiver_waiting: false,
                ..self
            }
        } else if self.state == DISCONNECTED {
            ChannelView { receiver_waiting: false, ..self }
        } else {
            self
        }
    }

    /// What a non-blocking receive returns.
    pub open spec fn try_recv_result(self) -> Result<T, TryRecvError> {
        if self.state == MESSAGE {
            Ok(self.message.unwrap())
        } else if self.state == DISCONNECTED {
            Err(TryRecvError::Disconnected)
        } else {
            Err(TryRecvError::Empty)
        }
    }

    /// What the receiver learns when it looks at the channel.
    pub open spec fn observe_result(self) -> ReceiveStep<T> {
        if self.state == MESSAGE {
            ReceiveStep::Message(self.message.unwrap())
        } else if self.state == DISCONNECTED {
            ReceiveStep::Disconnected
        } else if self.state == RECEIVING {
            ReceiveStep::Waiting
        } else {
            ReceiveStep::Empty
        }
    }

    /// The channel after the receiver offered `waker` to be woken with.
    pub open spec fn after_register(self, waker: W) -> Self {
        if self.state == EMPTY {
            ChannelView { state: RECEIVING, waker: Some(waker), receiver_waiting: true, ..self }
        } else {
            self.after_take()
        }
    }

    /// What the receiver learns when it offers a waker.
    pub open spec fn register_result(self) -> ReceiveStep<T> {
        if self.state == EMPTY {
            ReceiveStep::Waiting
        } else {
            self.observe_result()
        }
    }

    /// The channel after the receiver stopped waiting because its deadline passed.
    pub open spec fn after_cancel(self) -> Self {
        if self.state == RECEIVING {
            ChannelView { state: EMPTY, waker: None, receiver_waiting: false, ..self }
        } else {
            self.after_take()
        }
    }

    /// What the receiver learns when it stops waiting: `Empty` when no message came and the
    /// sender is still alive, that is, the receive timed out.
    pub open spec fn cancel_result(self) -> ReceiveStep<T> {
        if self.state == RECEIVING {
            ReceiveStep::Empty
        } else {
            self.observe_result()
        }
    }

    /// The channel after the receiver was dropped.
    pub open spec fn after_drop_receiver(self) -> Self {
        ChannelView {
            state: DISCONNECTED,
            message: None,
            waker: None,
            receiver_alive: false,
            receiver_waiting: false,
            ..self
        }
    }

    /// Whether the receiver, when dropped, is the last endpoint and frees the channel.
    pub open spec fn drop_receiver_releases(self) -> bool {
        self.state == MESSAGE || self.state == DISCONNECTED
    }
}

/// The shared part of a oneshot channel: the state byte, the slot for the message and the slot
/// for the waker of a waiting receiver.
pub struct Channel<T, W> {
    state: u8,
    message: Option<T>,
    waker: Option<W>,
    sender_alive: Ghost<bool>,
    receiver_alive: Ghost<bool>,
    receiver_waiting: Ghost<bool>,
    sent: Ghost<Option<T>>,
}

impl<T, W> View for Channel<T, W> {
    type V = ChannelView<T, W>;

    closed spec fn view(&self) -> ChannelView<T, W> {
        ChannelView {
            state: self.state,
            message: self.message,
            waker: self.waker,
            sender_alive: self.sender_alive@,
            receiver_alive: self.receiver_alive@,
            receiver_waiting: self.receiver_waiting@,
            sent: self.sent@,
        }
    }
}

impl<T, W> Channel<T, W> {
    /// Whether the channel is in a state that its operations can reach.
    pub open spec fn wf(&self) -> bool {
        self@.inv()
    }

    /// A new channel: both endpoints alive, no message, nobody waiting.
    pub fn new() -> (c: Self)
        ensures
            c.wf(),
            c@ == ChannelView::<T, W>::initial(),
    {
        Channel {
            state: EMPTY,
            message: None,
            waker: None,
            sender_alive: Ghost(true),
            receiver_alive: Ghost(true),
            receiver_waiting: Ghost(false),
            sent: Ghost(None),
        }
    }

    /// The state byte.
    pub fn state(&self) -> (s: u8)
        ensures
            s == self@.state,
    {
        self.state
    }

    /// Sends `message` to the receiver; this consumes the sender.
    ///
    /// The message is written into the channel and the state is swapped to `MESSAGE`. If the
    /// receiver was waiting, its waker is handed back so that the sender wakes it. If the
    /// receiver was already dropped, the message comes back in the error.
    pub fn send(&mut self, message: T) -> (r: Result<Option<W>, SendError<T>>)
        requires
            old(self).wf(),
            old(self)@.sender_alive,
        ensures
            final(self).wf(),
            final(self)@ == old(self)@.after_send(message),
            r is Ok <==> old(self)@.send_delivers(),
            r is Ok <==> old(self)@.receiver_alive,
            r matches Ok(w) ==> w == old(self)@.waker,
            r matches Err(e) ==> e.message() == message,
    {
        let ghost sent = message;
        // Write the message into the channel.
        self.message = Some(message);
        // Set the state to signal that there is a message on the channel.
        let prev = self.state;
        self.state = MESSAGE;
        self.sender_alive = Ghost(false);
        self.sent = Ghost(Some(sent));
        if prev == EMPTY {
            // The receiver is alive and has not started waiting.
            Ok(None)
        } else if prev == RECEIVING {
            // The receiver is waiting: hand its waker over so that it gets woken up.
            let waker = self.waker.take();
            Ok(waker)
        } else {
            // The receiver was already dropped. The error takes the message back, and the
            // channel, which no endpoint uses any more, stays closed.
            self.state = DISCONNECTED;
            let message = self.message.take().unwrap();
            Err(SendError::new(message))
        }
    }

    /// The sender is dropped without sending: the state is swapped to `DISCONNECTED`.
    pub fn drop_sender(&mut self) -> (action: SenderDrop<W>)
        requires
            old(self).wf(),
            old(self)@.sender_alive,
        ensures
            final(self).wf(),
            final(self)@ == old(self)@.after_drop_sender(),
            action == old(self)@.drop_sender_action(),
            action is Release <==> !old(self)@.receiver_alive,
    {
        let prev = self.state;
        self.state = DISCONNECTED;
        self.sender_alive = Ghost(false);
        if prev == EMPTY {
            // The receiver has not started waiting, nor is it dropped.
            SenderDrop::Nothing
        } else if prev == RECEIVING {
            // The receiver is waiting. Wake it up so that it sees the channel disconnected.
            let waker = self.waker.take().unwrap();
            SenderDrop::Wake(waker)
        } else {
            // The receiver was already dropped. The sender frees the channel.
            SenderDrop::Release
        }
    }

    /// Takes the message out of the channel and marks it disconnected. The receiver is the only
    /// one who acts on a channel in state `MESSAGE`.
    fn take_message(&mut self) -> (m: T)
        requires
            old(self).wf(),
            old(self)@.state == MESSAGE,
        ensures
            final(self).wf(),
            final(self)@ == old(self)@.after_take(),
            m == old(self)@.message.unwrap(),
    {
        self.state = DISCONNECTED;
        self.receiver_waiting = Ghost(false);
        self.message.take().unwrap()
    }

    /// Checks for the message without waiting. Returns the message if there is one, `Empty` if
    /// the sender is alive but has not sent anything, and `Disconnected` if the sender was
    /// dropped before sending anything or the message was already received.
    pub fn try_recv(&mut self) -> (r: Result<T, TryRecvError>)
        requires
            old(self).wf(),
            old(self)@.receiver_alive,
        ensures
            final(self).wf(),
            final(self)@ == old(self)@.after_take(),
            r == old(self)@.try_recv_result(),
            r is Ok <==> old(self)@.message is Some,
            r == Err::<T, TryRecvError>(TryRecvError::Empty) <==> old(self)@.sender_alive,
            r == Err::<T, TryRecvError>(TryRecvError::Disconnected) <==> !old(self)@.sender_alive
                && old(self)@.message is None,
            r matches Ok(m) ==> old(self)@.sent == Some(m),
    {
        let state = self.state;
        if state == EMPTY || state == RECEIVING {
            // The sender is alive but has not sent anything yet.
            Err(TryRecvError::Empty)
        } else if state == MESSAGE {
            // The sender sent the message. Take it and mark the channel disconnected.
            Ok(self.take_message())
        } else {
            self.receiver_waiting = Ghost(false);
            // The sender was dropped before sending anything, or the message was received.
            Err(TryRecvError::Disconnected)
        }
    }

    /// The receiver looks at the channel: when it starts to receive, and each time it wakes up
    /// while it waits. A message found is taken out and the channel marked disconnected.
    pub fn observe(&mut self) -> (step: ReceiveStep<T>)
        requires
            old(self).wf(),
            old(self)@.receiver_alive,
        ensures
            final(self).wf(),
            final(self)@ == old(self)@.after_take(),
            step == old(self)@.observe_result(),
            step matches ReceiveStep::Message(m) ==> old(self)@.sent == Some(m),
            step is Message <==> old(self)@.message is Some,
            step is Disconnected <==> !old(self)@.sender_alive && old(self)@.message is None,
            step is Waiting <==> old(self)@.sender_alive && old(self)@.receiver_waiting,
            step is Empty <==> old(self)@.sender_alive && !old(self)@.receiver_waiting,
    {
        let state = self.state;
        if state == EMPTY {
            // The sender is alive but has not sent anything yet.
            ReceiveStep::Empty
        } else if state == RECEIVING {
            // The waker is still in the channel: nothing changed.
            ReceiveStep::Waiting
        } else if state == MESSAGE {
            // The sender sent the message. Take it and mark the channel disconnected.
            ReceiveStep::Message(self.take_message())
        } else {
            // The sender was dropped before sending anything, or the message was received.
            self.receiver_waiting = Ghost(false);
            ReceiveStep::Disconnected
        }
    }

    /// The receiver writes `waker` into the channel and swaps the state from `EMPTY` to
    /// `RECEIVING`. If the sender acted in the meantime, the waker is dropped again and the
    /// receiver gets the message or learns that the channel is disconnected.
    pub fn register(&mut self, waker: W) -> (step: ReceiveStep<T>)
        requires
            old(self).wf(),
            old(self)@.receiver_alive,
            !old(self)@.receiver_waiting,
        ensures
            final(self).wf(),
            final(self)@ == old(self)@.after_register(waker),
            step == old(self)@.register_result(),
            step matches ReceiveStep::Message(m) ==> old(self)@.sent == Some(m),
            step is Waiting <==> old(self)@.state == EMPTY,
            step is Waiting <==> old(self)@.sender_alive,
            step is Message <==> old(self)@.message is Some,
            step is Disconnected <==> !old(self)@.sender_alive && old(self)@.message is None,
            !(step is Empty),
    {
        // Write the waker into the channel.
        self.waker = Some(waker);
        // Compare and swap the state from EMPTY to RECEIVING.
        let prev = self.state;
        if prev == EMPTY {
            self.state = RECEIVING;
            self.receiver_waiting = Ghost(true);
            // The waker is stored; the receiver waits until the sender changes the state.
            ReceiveStep::Waiting
        } else {
            // The sender acted while the receiver prepared to wait: drop the waker again.
            self.waker = None;
            if prev == MESSAGE {
                ReceiveStep::Message(self.take_message())
            } else {
                self.receiver_waiting = Ghost(false);
                ReceiveStep::Disconnected
            }
        }
    }

    /// The receiver stops waiting because its deadline passed: it swaps the state to `EMPTY`.
    /// If no message came, the waker is dropped and the receive has timed out; the channel
    /// stays open. If the message came, it is taken. If the sender was dropped, the channel
    /// stays disconnected.
    pub fn cancel(&mut self) -> (step: ReceiveStep<T>)
        requires
            old(self).wf(),
            old(self)@.receiver_waiting,
        ensures
            final(self).wf(),
            final(self)@ == old(self)@.after_cancel(),
            step == old(self)@.cancel_result(),
            step matches ReceiveStep::Message(m) ==> old(self)@.sent == Some(m),
            step is Empty <==> old(self)@.sender_alive,
            step is Message <==> old(self)@.message is Some,
            step is Disconnected <==> !old(self)@.sender_alive && old(self)@.message is None,
            !(step is Waiting),
    {
        let prev = self.state;
        if prev == RECEIVING {
            self.state = EMPTY;
            // No message came: take the waker back out of the channel.
            self.waker = None;
            self.receiver_waiting = Ghost(false);
            ReceiveStep::Empty
        } else if prev == MESSAGE {
            // The sender sent the message while the receiver waited.
            ReceiveStep::Message(self.take_message())
        } else {
            // The sender was dropped while the receiver waited.
            self.receiver_waiting = Ghost(false);
            ReceiveStep::Disconnected
        }
    }

    /// The receiver is dropped: the state is swapped to `DISCONNECTED`, and a message or a
    /// waker left in the channel is dropped. Returns whether the receiver is the last endpoint
    /// and frees the channel.
    pub fn drop_receiver(&mut self) -> (release: bool)
        requires
            old(self).wf(),
            old(self)@.receiver_alive,
        ensures
            final(self).wf(),
            final(self)@ == old(self)@.after_drop_receiver(),
            release == old(self)@.drop_receiver_releases(),
            release <==> !old(self)@.sender_alive,
    {
        let prev = self.state;
        self.state = DISCONNECTED;
        self.receiver_alive = Ghost(false);
        self.receiver_waiting = Ghost(false);
        if prev == EMPTY {
            // The sender has not sent anything, nor is it dropped.
            false
        } else if prev == RECEIVING {
            // The receiver was polled and left its waker: drop it.
            self.waker = None;
            false
        } else if prev == MESSAGE {
            // The sender already sent something. Drop it, and free the channel.
            self.message = None;
            true
        } else {
            // The sender was already dropped. The receiver frees the channel.
            true
        }
    }
}

} // verus!
