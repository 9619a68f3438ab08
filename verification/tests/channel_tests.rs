use oneshot::channel::{next_receive_action, Channel, ReceiveAction, ReceiveStep, SenderDrop};
use oneshot::errors::{RecvError, RecvTimeoutError, SendError, TryRecvError};
use oneshot::states::{DISCONNECTED, EMPTY, MESSAGE, RECEIVING};
use oneshot::waker::DummyWaker;
use std::sync::atomic::{AtomicUsize, Ordering::SeqCst};
use std::sync::Arc;

struct DropCounter(Arc<AtomicUsize>);

impl DropCounter {
    fn new() -> (Self, Arc<AtomicUsize>) {
        let counter = Arc::new(AtomicUsize::new(0));
        (Self(counter.clone()), counter)
    }
}

impl Drop for DropCounter {
    fn drop(&mut self) {
        self.0.fetch_add(1, SeqCst);
    }
}

fn new_channel<T>() -> Channel<T, u32> {
    Channel::new()
}

#[test]
fn new_channel_is_empty() {
    let channel = new_channel::<u8>();
    assert_eq!(channel.state(), EMPTY);
}

#[test]
fn send_before_recv_ref() {
    let mut channel = new_channel::<i128>();
    assert!(channel.send(19i128).is_ok());
    assert_eq!(channel.state(), MESSAGE);

    assert_eq!(channel.observe(), ReceiveStep::Message(19i128));
    assert_eq!(channel.state(), DISCONNECTED);
    assert_eq!(channel.observe(), ReceiveStep::Disconnected);
    assert_eq!(channel.try_recv(), Err(TryRecvError::Disconnected));
    assert_eq!(channel.observe().into_recv_result(), Err(RecvError));
    assert!(channel.observe().into_timeout_result().is_err());
}

#[test]
fn send_before_recv_timeout() {
    let mut channel = new_channel::<i128>();
    assert!(channel.send(19i128).is_ok());

    // The message is already there: the receive returns it without waiting.
    assert_eq!(channel.observe(), ReceiveStep::Message(19i128));
    assert_eq!(channel.state(), DISCONNECTED);

    assert!(channel.observe().into_timeout_result().is_err());
    assert!(channel.try_recv().is_err());
    assert!(channel.observe().into_recv_result().is_err());
}

#[test]
fn send_before_recv() {
    let mut channel = new_channel::<()>();
    assert!(channel.send(()).is_ok());
    assert_eq!(channel.observe().into_recv_result(), Ok(()));
    assert!(channel.drop_receiver());

    let mut channel = new_channel::<u8>();
    assert!(channel.send(19).is_ok());
    assert_eq!(channel.observe().into_recv_result(), Ok(19));

    let mut channel = new_channel::<u64>();
    assert!(channel.send(21).is_ok());
    assert_eq!(channel.observe().into_recv_result(), Ok(21));

    let mut channel = new_channel::<[u8; 4096]>();
    assert!(channel.send([0b10101010; 4096]).is_ok());
    assert!(channel.observe().into_recv_result().unwrap()[..] == [0b10101010; 4096][..]);
}

#[test]
fn send_before_try_recv() {
    let mut channel = new_channel::<i128>();
    assert!(channel.send(19i128).is_ok());

    assert_eq!(channel.try_recv(), Ok(19i128));
    assert_eq!(channel.try_recv(), Err(TryRecvError::Disconnected));
    assert_eq!(channel.observe().into_recv_result(), Err(RecvError));
    assert_eq!(channel.observe().into_timeout_result(), Err(RecvTimeoutError::Disconnected));
}

#[test]
fn send_then_drop_receiver() {
    let mut channel = new_channel::<i128>();
    assert!(channel.send(19i128).is_ok());
    // The receiver is the last endpoint: it frees the channel.
    assert!(channel.drop_receiver());
}

#[test]
fn send_with_dropped_receiver() {
    let mut channel = new_channel::<u128>();
    assert!(!channel.drop_receiver());
    let send_error = channel.send(5u128).unwrap_err();
    assert_eq!(*send_error.as_inner(), 5);
    assert_eq!(send_error.into_inner(), 5);
    assert_eq!(channel.state(), DISCONNECTED);
}

#[test]
fn recv_with_dropped_sender() {
    let mut channel = new_channel::<u128>();
    assert_eq!(channel.drop_sender(), SenderDrop::Nothing);
    channel.observe().into_recv_result().unwrap_err();
    assert!(channel.drop_receiver());
}

#[test]
fn try_recv_with_dropped_sender() {
    let mut channel = new_channel::<u128>();
    assert_eq!(channel.drop_sender(), SenderDrop::Nothing);
    channel.try_recv().unwrap_err();
    assert_eq!(channel.try_recv(), Err(TryRecvError::Disconnected));
}

#[test]
fn recv_before_send() {
    let mut channel = new_channel::<u128>();
    assert_eq!(channel.observe(), ReceiveStep::Empty);
    assert_eq!(channel.register(77), ReceiveStep::Waiting);
    assert_eq!(channel.state(), RECEIVING);
    // The sender hands out the waker of the waiting receiver.
    assert_eq!(channel.send(9u128).ok(), Some(Some(77)));
    assert_eq!(channel.observe().into_recv_result(), Ok(9));
    assert!(channel.drop_receiver());
}

#[test]
fn recv_before_send_then_drop_sender() {
    let mut channel = new_channel::<u128>();
    assert_eq!(channel.observe(), ReceiveStep::Empty);
    assert_eq!(channel.register(10), ReceiveStep::Waiting);
    // A spurious wakeup: nothing changed.
    assert_eq!(channel.observe(), ReceiveStep::Waiting);
    assert_eq!(channel.drop_sender(), SenderDrop::Wake(10));
    assert!(channel.observe().into_recv_result().is_err());
    assert!(channel.drop_receiver());
}

#[test]
fn recv_timeout_before_send() {
    let mut channel = new_channel::<u128>();
    assert_eq!(channel.observe(), ReceiveStep::Empty);
    assert_eq!(channel.register(1), ReceiveStep::Waiting);
    // The sender hands out the waker; the woken receiver finds the message before its
    // deadline.
    assert_eq!(channel.send(9).ok(), Some(Some(1)));
    assert_eq!(channel.observe().into_timeout_result(), Ok(9));
    assert!(channel.drop_receiver());
}

#[test]
fn deadline_passes_after_message_came() {
    let mut channel = new_channel::<u128>();
    assert_eq!(channel.register(1), ReceiveStep::Waiting);
    assert_eq!(channel.send(9).ok(), Some(Some(1)));
    // The deadline passes after the message came: the message is taken all the same.
    assert_eq!(channel.cancel().into_timeout_result(), Ok(9));
}

#[test]
fn recv_timeout_before_send_then_drop_sender() {
    let mut channel = new_channel::<u128>();
    assert_eq!(channel.register(1), ReceiveStep::Waiting);
    assert_eq!(channel.drop_sender(), SenderDrop::Wake(1));
    assert_eq!(channel.cancel().into_timeout_result(), Err(RecvTimeoutError::Disconnected));
    // The channel stays disconnected.
    assert_eq!(channel.state(), DISCONNECTED);
    assert_eq!(channel.try_recv(), Err(TryRecvError::Disconnected));
    assert!(channel.drop_receiver());
}

#[test]
fn try_recv() {
    let mut channel = new_channel::<u128>();
    assert_eq!(channel.try_recv(), Err(TryRecvError::Empty));
    assert_eq!(channel.drop_sender(), SenderDrop::Nothing);
}

#[test]
fn recv_deadline_and_timeout_no_time() {
    let mut channel = new_channel::<u128>();
    assert_eq!(channel.register(3), ReceiveStep::Waiting);
    assert_eq!(channel.cancel().into_timeout_result(), Err(RecvTimeoutError::Timeout));
    // The channel is open again, as if the receiver had never waited.
    assert_eq!(channel.state(), EMPTY);
    assert_eq!(channel.register(4), ReceiveStep::Waiting);
    assert_eq!(channel.cancel().into_timeout_result(), Err(RecvTimeoutError::Timeout));
    assert!(channel.send(8).is_ok());
    assert_eq!(channel.try_recv(), Ok(8));
}

#[test]
fn register_after_message_takes_it() {
    let mut channel = new_channel::<u128>();
    assert_eq!(channel.observe(), ReceiveStep::Empty);
    // The sender acts between the receiver's look and its offer of a waker.
    assert!(channel.send(33).is_ok());
    assert_eq!(channel.register(5), ReceiveStep::Message(33));
    assert_eq!(channel.state(), DISCONNECTED);
}

#[test]
fn register_after_sender_dropped() {
    let mut channel = new_channel::<u128>();
    assert_eq!(channel.observe(), ReceiveStep::Empty);
    assert_eq!(channel.drop_sender(), SenderDrop::Nothing);
    assert_eq!(channel.register(5), ReceiveStep::Disconnected);
    assert!(channel.drop_receiver());
}

#[test]
fn poll_receiver_then_drop_it() {
    let mut channel = new_channel::<u128>();
    assert_eq!(channel.register(100), ReceiveStep::Waiting);
    // Polled again while waiting: still waiting, the waker stays.
    assert_eq!(channel.observe(), ReceiveStep::Waiting);
    assert_eq!(channel.try_recv(), Err(TryRecvError::Empty));
    // The receiver is dropped while its waker is in the channel.
    assert!(!channel.drop_receiver());
    assert_eq!(channel.drop_sender(), SenderDrop::Release);
}

#[test]
fn message_in_channel_dropped_on_receiver_drop() {
    let mut channel = Channel::<DropCounter, u32>::new();
    let (message, drop_count) = DropCounter::new();
    assert_eq!(drop_count.load(SeqCst), 0);
    assert!(channel.send(message).is_ok());
    assert_eq!(drop_count.load(SeqCst), 0);
    assert!(channel.drop_receiver());
    assert_eq!(drop_count.load(SeqCst), 1);
}

#[test]
fn send_error_drops_message_correctly() {
    let mut channel = Channel::<DropCounter, u32>::new();
    assert!(!channel.drop_receiver());
    let (message, drop_count) = DropCounter::new();

    let send_error = channel.send(message).unwrap_err();
    assert_eq!(drop_count.load(SeqCst), 0);
    std::mem::drop(send_error);
    assert_eq!(drop_count.load(SeqCst), 1);
}

#[test]
fn send_error_drops_message_correctly_on_into_inner() {
    let mut channel = Channel::<DropCounter, u32>::new();
    assert!(!channel.drop_receiver());
    let (message, drop_count) = DropCounter::new();

    let send_error = channel.send(message).unwrap_err();
    assert_eq!(drop_count.load(SeqCst), 0);
    let message = send_error.into_inner();
    assert_eq!(drop_count.load(SeqCst), 0);
    std::mem::drop(message);
    assert_eq!(drop_count.load(SeqCst), 1);
}

#[test]
fn drop_sender_then_receiver_frees_once() {
    let mut channel = new_channel::<u8>();
    assert_eq!(channel.drop_sender(), SenderDrop::Nothing);
    assert!(channel.drop_receiver());

    let mut channel = new_channel::<u8>();
    assert!(!channel.drop_receiver());
    assert_eq!(channel.drop_sender(), SenderDrop::Release);
}

#[test]
fn error_texts() {
    let e: SendError<u8> = {
        let mut channel = new_channel::<u8>();
        channel.drop_receiver();
        channel.send(1).unwrap_err()
    };
    assert_eq!(e.to_string(), "sending on a closed channel");
    assert_eq!(RecvError.to_string(), "receiving on a closed channel");
    assert_eq!(TryRecvError::Empty.to_string(), "receiving on an empty channel");
    assert_eq!(TryRecvError::Disconnected.to_string(), "receiving on a closed channel");
    assert_eq!(RecvTimeoutError::Timeout.to_string(), "timed out waiting on channel");
    assert_eq!(
        RecvTimeoutError::Disconnected.to_string(),
        "channel is empty and sending half is closed"
    );
}

#[test]
fn dummy_waker_channel() {
    let mut channel = Channel::<u8, DummyWaker>::new();
    assert_eq!(channel.register(DummyWaker), ReceiveStep::Waiting);
    assert!(matches!(channel.send(2), Ok(Some(DummyWaker))));
    assert_eq!(channel.try_recv(), Ok(2));
}

#[test]
fn error_sizes() {
    let expected = std::mem::size_of::<usize>();

    assert_eq!(std::mem::size_of::<SendError<()>>(), expected);
    assert_eq!(std::mem::size_of::<SendError<u8>>(), expected);
    assert_eq!(std::mem::size_of::<SendError<[u8; 1024]>>(), expected);

    assert_eq!(std::mem::size_of::<Result<(), SendError<[u8; 1024]>>>(), expected);
}

#[test]
fn send_error_debug() {
    let mut channel = new_channel::<u8>();
    assert!(!channel.drop_receiver());
    let error = channel.send(7).unwrap_err();
    assert_eq!(format!("{:?}", error), "SendError<T>(_)");
}

#[test]
fn send_of_message_without_debug_can_unwrap() {
    struct NoDebug(u8);
    let mut channel = Channel::<NoDebug, u32>::new();
    channel.send(NoDebug(3)).unwrap();
    match channel.try_recv() {
        Ok(NoDebug(value)) => assert_eq!(value, 3),
        Err(_) => panic!("the message was sent"),
    }
}

#[test]
fn receive_actions() {
    let message = ReceiveStep::Message(5u8);
    let waiting = ReceiveStep::<u8>::Waiting;
    let empty = ReceiveStep::<u8>::Empty;
    let disconnected = ReceiveStep::<u8>::Disconnected;

    assert_eq!(next_receive_action(&message, false, false, true), ReceiveAction::Finish);
    assert_eq!(next_receive_action(&disconnected, true, false, false), ReceiveAction::Finish);
    // The first look finds nothing: offer a waker.
    assert_eq!(next_receive_action(&empty, false, false, true), ReceiveAction::Register);
    // A cancelled wait found nothing: the receive timed out.
    assert_eq!(next_receive_action(&empty, true, false, false), ReceiveAction::Finish);
    // A blocking receive that finds an earlier poll's waker is misused; a poll just waits.
    assert_eq!(next_receive_action(&waiting, false, false, true), ReceiveAction::Misuse);
    assert_eq!(next_receive_action(&waiting, false, true, true), ReceiveAction::Wait);
    assert_eq!(next_receive_action(&waiting, true, false, true), ReceiveAction::Wait);
    assert_eq!(next_receive_action(&waiting, true, false, false), ReceiveAction::Cancel);
}
