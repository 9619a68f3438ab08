//! The marker trait that every waker type implements.
use vstd::prelude::*;

verus! {

/// Implemented by every type that may be used to wake a waiting receiver. It carries no
/// methods; it marks the types meant to serve as wakers, in this crate and in the crates that
/// use it.
pub trait Sealed {}

} // verus!
