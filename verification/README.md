# oneshot

A oneshot channel carries one message from a sender to a receiver, between threads or between
a thread and an asynchronous task.

## Layout

- `src/` — the verified library.
  - `states.rs`: the four values of the channel's state byte.
  - `channel.rs`: `Channel`, the shared part of a channel (state byte, message slot, waker
    slot), with one method per step that an endpoint takes: `send` and `drop_sender` for the
    sender; `try_recv`, `observe`, `register`, `cancel` and `drop_receiver` for the receiver.
    Each method states, over `ChannelView`, exactly what it returns and what the channel
    becomes. `next_receive_action` decides, after each step of a receive, whether to offer a
    waker, wait, give up at the deadline, or finish.
  - `laws.rs`: what holds across steps, whatever order the two endpoints act in: the
    invariant is kept, the receiver gets the sent message and gets it once, a closed channel
    stays closed, the last endpoint frees the channel, no wakeup is lost, a timed-out receive
    leaves the channel open.
  - `errors.rs`: `SendError`, `RecvError`, `TryRecvError`, `RecvTimeoutError`.
  - `waker.rs`, `sealed.rs`: the wakers that a waiting receiver leaves in the channel.
- `app/` — the endpoints `Sender` and `Receiver`: they share one `Channel` behind a lock, park
  and unpark threads, read the clock for timeouts, and let the receiver be awaited.
- `tests/` — tests of the library.
