//! Single-threaded cooperative task state machines and the future-style
//! synchronisation cells built on them.
//!
//! Every primitive here is a plain value: a waker is whatever token `W` the
//! host uses to re-evaluate a suspended computation, and every operation that
//! would notify somebody hands the tokens to notify back to its caller.

use vstd::prelude::*;

pub mod sync;
pub mod task;

verus! {

/// The outcome of a poll, as the standard library defines it: `Ready` with a
/// value, or `Pending`.
#[verifier::external_type_specification]
pub struct ExPoll<T>(core::task::Poll<T>);

/// The sum of two machine integers.
pub fn add(left: usize, right: usize) -> (sum: usize)
    requires
        left + right <= usize::MAX,
    ensures
        sum == left + right,
{
    left + right
}

} // verus!
