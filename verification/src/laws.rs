//! What holds of the channel across its operations, whatever order the two endpoints take
//! their steps in.
use vstd::prelude::*;
use crate::channel::{receive_action, ChannelView, ReceiveAction, ReceiveStep, SenderDrop};
use crate::errors::TryRecvError;
use crate::states::{DISCONNECTED, EMPTY};

verus! {

/// A new channel satisfies the invariant, and every operation that an endpoint may take keeps
/// it: sending and dropping while the sender is alive, looking, receiving and dropping while
/// the receiver is alive, offering a waker while the receiver does not wait, and giving up
/// while it waits.
pub proof fn lemma_every_step_keeps_invariant<T, W>(v: ChannelView<T, W>, message: T, waker: W)
    requires
        v.inv(),
    ensures
        ChannelView::<T, W>::initial().inv(),
        v.sender_alive ==> v.after_send(message).inv(),
        v.sender_alive ==> v.after_drop_sender().inv(),
        v.receiver_alive ==> v.after_take().inv(),
        v.receiver_alive ==> v.after_drop_receiver().inv(),
        v.receiver_alive && !v.receiver_waiting ==> v.after_register(waker).inv(),
        v.receiver_waiting ==> v.after_cancel().inv(),
{
}

/// The two endpoints do not get in each other's way: a step of the sender leaves the receiver
/// as alive and as waiting as it was, and a step of the receiver leaves the sender as alive as
/// it was, so each endpoint may take its next step whatever the other did in between. After
/// it sent or was dropped, the sender takes no further step: it sends at most one message.
pub proof fn lemma_endpoints_do_not_interfere<T, W>(v: ChannelView<T, W>, message: T, waker: W)
    requires
        v.inv(),
    ensures
        v.sender_alive ==> {
            &&& v.after_send(message).receiver_alive == v.receiver_alive
            &&& v.after_send(message).receiver_waiting == v.receiver_waiting
            &&& v.after_drop_sender().receiver_alive == v.receiver_alive
            &&& v.after_drop_sender().receiver_waiting == v.receiver_waiting
            &&& !v.after_send(message).sender_alive
            &&& !v.after_drop_sender().sender_alive
        },
        v.receiver_alive ==> {
            &&& v.after_take().sender_alive == v.sender_alive
            &&& v.after_drop_receiver().sender_alive == v.sender_alive
            &&& !v.receiver_waiting ==> v.after_register(waker).sender_alive == v.sender_alive
        },
        v.receiver_waiting ==> v.after_cancel().sender_alive == v.sender_alive,
{
}

/// The message that the receiver gets is the message that the sender sent: a message sent
/// while the receiver is alive is what the receiver's next look, non-blocking receive, or
/// cancelled wait returns; and whatever step of the receiver returns a message, that message
/// is the one the sender sent.
pub proof fn lemma_receiver_gets_sent_message<T, W>(v: ChannelView<T, W>, message: T, waker: W)
    requires
        v.inv(),
    ensures
        v.sender_alive && v.receiver_alive ==> {
            let s = v.after_send(message);
            &&& s.try_recv_result() == Ok::<T, TryRecvError>(message)
            &&& s.observe_result() == ReceiveStep::Message(message)
            &&& !s.receiver_waiting ==> s.register_result() == ReceiveStep::Message(message)
            &&& s.receiver_waiting ==> s.cancel_result() == ReceiveStep::Message(message)
        },
        v.receiver_alive ==> (v.try_recv_result() matches Ok(m) ==> v.sent == Some(m)),
        v.receiver_alive ==> (v.observe_result() matches ReceiveStep::Message(m) ==> v.sent == Some(
            m,
        )),
        v.receiver_alive && !v.receiver_waiting ==> (v.register_result() matches ReceiveStep::Message(
            m,
        ) ==> v.sent == Some(m)),
        v.receiver_waiting ==> (v.cancel_result() matches ReceiveStep::Message(m) ==> v.sent == Some(
            m,
        )),
{
}

/// The message is received at most once: once the receiver has taken it, the channel is
/// disconnected, and every later receive step reports that.
pub proof fn lemma_message_received_once<T, W>(v: ChannelView<T, W>)
    requires
        v.inv(),
        v.receiver_alive,
        v.try_recv_result() is Ok,
    ensures
        v.after_take().state == DISCONNECTED,
        v.after_take().try_recv_result() == Err::<T, TryRecvError>(TryRecvError::Disconnected),
        v.after_take().observe_result() == ReceiveStep::<T>::Disconnected,
        v.after_take().after_take() == v.after_take(),
{
}

/// A disconnected channel stays disconnected: no step of either endpoint opens it again, a
/// send on it fails, and every receive step reports it disconnected.
pub proof fn lemma_closed_channel_stays_closed<T, W>(v: ChannelView<T, W>, message: T, waker: W)
    requires
        v.inv(),
        v.state == DISCONNECTED,
    ensures
        v.sender_alive ==> !v.send_delivers() && v.after_send(message).state == DISCONNECTED,
        v.sender_alive ==> v.after_drop_sender().state == DISCONNECTED,
        v.receiver_alive ==> v.after_take().state == DISCONNECTED,
        v.receiver_alive ==> v.try_recv_result() == Err::<T, TryRecvError>(
            TryRecvError::Disconnected,
        ),
        v.receiver_alive ==> v.observe_result() == ReceiveStep::<T>::Disconnected,
        v.receiver_alive && !v.receiver_waiting ==> v.after_register(waker).state == DISCONNECTED
            && v.register_result() == ReceiveStep::<T>::Disconnected,
        v.receiver_waiting ==> v.after_cancel().state == DISCONNECTED && v.cancel_result()
            == ReceiveStep::<T>::Disconnected,
        v.receiver_alive ==> v.after_drop_receiver().state == DISCONNECTED,
{
}

/// Exactly one endpoint frees the channel: the one that goes away last. Of the two drops, in
/// either order, the second frees it; a send to a dropped receiver fails and its error takes
/// over; a sent message is freed with the receiver.
pub proof fn lemma_last_endpoint_frees<T, W>(v: ChannelView<T, W>, message: T)
    requires
        v.inv(),
        v.sender_alive,
        v.receiver_alive,
    ensures
        !(v.drop_sender_action() is Release),
        v.after_drop_sender().drop_receiver_releases(),
        !v.drop_receiver_releases(),
        v.after_drop_receiver().drop_sender_action() is Release,
        v.send_delivers(),
        v.after_send(message).drop_receiver_releases(),
        v.after_send(message).after_take().drop_receiver_releases(),
        !v.after_drop_receiver().send_delivers(),
{
}

/// No wakeup is lost: while the sender is alive, a waiting receiver's waker is in the channel,
/// and the sender hands it out when it sends or is dropped; the woken receiver then finds the
/// message, or finds the channel disconnected, and does not wait again.
pub proof fn lemma_waiting_receiver_is_woken<T, W>(v: ChannelView<T, W>, message: T)
    requires
        v.inv(),
        v.sender_alive,
        v.receiver_waiting,
    ensures
        v.waker is Some,
        v.send_delivers(),
        v.drop_sender_action() == SenderDrop::Wake(v.waker.unwrap()),
        v.after_send(message).observe_result() == ReceiveStep::Message(message),
        v.after_drop_sender().observe_result() == ReceiveStep::<T>::Disconnected,
{
}

/// The waker that the receiver offers on an empty channel is the one that the sender hands
/// out when it sends or is dropped.
pub proof fn lemma_registered_waker_is_handed_out<T, W>(
    v: ChannelView<T, W>,
    message: T,
    waker: W,
)
    requires
        v.inv(),
        v.state == EMPTY,
    ensures
        v.register_result() == ReceiveStep::<T>::Waiting,
        v.after_register(waker).waker == Some(waker),
        v.after_register(waker).send_delivers(),
        v.after_register(waker).drop_sender_action() == SenderDrop::Wake(waker),
{
}

/// A receive that times out leaves the channel open, as if the receiver had never waited: its
/// waker is gone, both endpoints are alive, and a message sent later still arrives.
pub proof fn lemma_timeout_keeps_channel_open<T, W>(v: ChannelView<T, W>, message: T)
    requires
        v.inv(),
        v.sender_alive,
        v.receiver_waiting,
    ensures
        v.cancel_result() == ReceiveStep::<T>::Empty,
        v.after_cancel().state == EMPTY,
        v.after_cancel().waker is None,
        v.after_cancel().sender_alive && v.after_cancel().receiver_alive,
        !v.after_cancel().receiver_waiting,
        v.after_cancel().after_send(message).try_recv_result() == Ok::<T, TryRecvError>(message),
{
}

/// A non-blocking receive tells apart exactly three cases: a message is in the channel; the
/// sender is alive and has not sent anything; the sender is gone and no message is left,
/// because it was dropped without sending or the message was already received.
pub proof fn lemma_try_recv_cases<T, W>(v: ChannelView<T, W>)
    requires
        v.inv(),
        v.receiver_alive,
    ensures
        v.try_recv_result() is Ok <==> v.message is Some,
        v.try_recv_result() == Err::<T, TryRecvError>(TryRecvError::Empty) <==> v.sender_alive,
        v.try_recv_result() == Err::<T, TryRecvError>(TryRecvError::Disconnected) <==> (
        !v.sender_alive && v.message is None),
{
}

/// A receive ends exactly when it has its answer: a step that carries the message, or that
/// finds the channel disconnected, ends every receive (blocking, with a deadline, or a poll),
/// whether or not a waker was offered and whatever time is left; so does a step that finds the
/// channel empty after the waker was offered, which is how a wait given up at the deadline
/// reports a timeout. A first look that finds the channel empty always offers a waker, even
/// when the deadline has already passed. Only a step that finds a waker in the channel makes
/// the receive wait or give up: it waits while time is left and gives up once the deadline has
/// passed, and it is a misuse only when the receive has not offered a waker itself and may not
/// find the waker of an earlier poll.
pub proof fn lemma_receive_ends_with_its_answer<T>(
    step: ReceiveStep<T>,
    registered: bool,
    may_find_waiting: bool,
    time_left: bool,
)
    ensures
        ({
            let a = receive_action(step, registered, may_find_waiting, time_left);
            &&& step is Message ==> a == ReceiveAction::Finish
            &&& step is Disconnected ==> a == ReceiveAction::Finish
            &&& step is Empty && registered ==> a == ReceiveAction::Finish
            &&& step is Empty && !registered ==> a == ReceiveAction::Register
            &&& a == ReceiveAction::Finish ==> step is Message || step is Disconnected || (step is Empty
                && registered)
            &&& a == ReceiveAction::Register ==> step is Empty && !registered
            &&& a == ReceiveAction::Misuse <==> (step is Waiting && !registered
                && !may_find_waiting)
            &&& a == ReceiveAction::Wait <==> (step is Waiting && (registered || may_find_waiting)
                && time_left)
            &&& a == ReceiveAction::Cancel <==> (step is Waiting && (registered || may_find_waiting)
                && !time_left)
        }),
{
}

} // verus!
