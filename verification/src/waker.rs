//! The handles that wake a receiver which waits for the message.
use vstd::prelude::*;
use crate::sealed::Sealed;
use core::task::Context;

verus! {

#[verifier::external_type_specification]
#[verifier::external_body]
pub struct ExTaskWaker(core::task::Waker);

#[verifier::external_type_specification]
#[verifier::external_body]
pub struct ExContext<'a>(core::task::Context<'a>);

/// Calls `core::task::Waker::wake`, which wakes the task that the waker stands for and consumes
/// the waker. Nothing is claimed of its effect.
#[verifier::external_body]
fn wake_task(waker: core::task::Waker) {
    waker.wake()
}

/// Calls `core::task::Context::waker` and `Clone::clone` on the waker it returns: a new handle
/// to the waker of the task that is being polled. Nothing is claimed of it.
#[verifier::external_body]
fn clone_context_waker(cx: &Context<'_>) -> core::task::Waker {
    cx.waker().clone()
}

/// Something that can wake a receiver that waits for the message.
pub trait Waker: Sealed + Sized {
    /// Wakes the receiver up, consuming the waker.
    fn wake(self);
}

/// A waker that can be used in synchronous operations: it wakes a parked thread.
///
/// It is assumed that the [`wake`](Waker::wake) method of a `SyncWaker` always unparks the
/// thread that created the waker with [`SyncWaker::new`]. The blocking receivers rely on it:
/// they park their thread until it is woken.
pub trait SyncWaker: Waker {
    /// Whether `w` is a waker that [`SyncWaker::new`] gives. Nothing is known of a waker that
    /// a type outside this crate gives.
    open spec fn made_by_new(w: Self) -> bool {
        true
    }

    /// A waker for the current thread.
    fn new() -> (w: Self)
        ensures
            Self::made_by_new(w),
    ;
}

/// A waker that can be used in asynchronous operations: it wakes a task.
pub trait AsyncWaker: Waker {
    /// Whether `w` is a waker that [`AsyncWaker::new`] gives for the context `ctx`. Nothing is
    /// known of a waker that a type outside this crate gives.
    open spec fn made_for(w: Self, ctx: &Context<'_>) -> bool {
        true
    }

    /// A waker for the task that is polled with the context `ctx`.
    fn new(ctx: &Context<'_>) -> (w: Self)
        ensures
            Self::made_for(w, ctx),
    ;
}

/// A waker that cannot be waited on: waking it does nothing.
pub struct DummyWaker;

impl Sealed for DummyWaker {}

impl Waker for DummyWaker {
    fn wake(self) {
    }
}

impl Sealed for core::task::Waker {}

impl Waker for core::task::Waker {
    fn wake(self) {
        wake_task(self)
    }
}

impl AsyncWaker for core::task::Waker {
    fn new(ctx: &Context<'_>) -> Self {
        clone_context_waker(ctx)
    }
}

/// The waker that a receiver leaves in the channel while it waits: either the handle of a
/// parked thread, of type `S`, or the waker of an asynchronous task.
pub enum ReceiverWaker<S> {
    /// The receiver is waiting synchronously. Its thread is parked.
    Thread(S),
    /// The receiver is waiting asynchronously. Its task can be woken up with this waker.
    Task(core::task::Waker),
}

impl<S: SyncWaker> ReceiverWaker<S> {
    /// A waker for the current thread: the thread handle that `S::new` gives.
    pub fn current_thread() -> (w: Self)
        ensures
            w matches ReceiverWaker::Thread(t) && call_ensures(S::new, (), t),
    {
        ReceiverWaker::Thread(S::new())
    }

    /// A waker for the task that is polled with the context `cx`: the task waker that
    /// `AsyncWaker::new` gives for `cx`.
    pub fn task_waker(cx: &Context<'_>) -> (w: Self)
        ensures
            w matches ReceiverWaker::Task(t) && call_ensures(<core::task::Waker as AsyncWaker>::new, (cx,), t),
    {
        ReceiverWaker::Task(<core::task::Waker as AsyncWaker>::new(cx))
    }

    /// Wakes the receiver up: unparks its thread, or wakes its task.
    pub fn unpark(self)
        ensures
            self matches ReceiverWaker::Thread(t) ==> call_ensures(<S as Waker>::wake, (t,), ()),
            self matches ReceiverWaker::Task(w) ==> call_ensures(
                <core::task::Waker as Waker>::wake,
                (w,),
                (),
            ),
    {
        match self {
            ReceiverWaker::Thread(thread) => Waker::wake(thread),
            ReceiverWaker::Task(waker) => Waker::wake(waker),
        }
    }
}

impl<S: SyncWaker> Sealed for ReceiverWaker<S> {}

impl<S: SyncWaker> Waker for ReceiverWaker<S> {
    fn wake(self) {
        self.unpark()
    }
}

impl<S: SyncWaker> SyncWaker for ReceiverWaker<S> {
    open spec fn made_by_new(w: Self) -> bool {
        w matches ReceiverWaker::Thread(t) && call_ensures(S::new, (), t)
    }

    fn new() -> Self {
        Self::current_thread()
    }
}

impl<S: SyncWaker> AsyncWaker for ReceiverWaker<S> {
    open spec fn made_for(w: Self, ctx: &Context<'_>) -> bool {
        w matches ReceiverWaker::Task(t) && call_ensures(
            <core::task::Waker as AsyncWaker>::new,
            (ctx,),
            t,
        )
    }

    fn new(ctx: &Context<'_>) -> Self {
        Self::task_waker(ctx)
    }
}

} // verus!
