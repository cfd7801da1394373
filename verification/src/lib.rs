//! Core of a pair of resource-management services (events and users):
//! the request-validation pipeline, the repository abstraction, the
//! use-case orchestration layer, and the error taxonomy that carries a
//! storage failure up to an HTTP status code.
//!
//! The surrounding web stack (routing, JSON encoding, the database
//! driver) stays outside this crate; everything here is pure logic over
//! plain values, stated in contracts and verified.

pub mod errors;
pub mod events;
pub mod ids;
pub mod text;
pub mod time;
pub mod users;

use vstd::prelude::*;

verus! {

/// A single orchestrated business operation, mediating between the HTTP
/// boundary and a repository. Each use case exposes exactly one
/// `execute` operation; what it may assume and what it guarantees is
/// fixed by the implementing type through `pre` and `post`.
pub trait UseCase<Input, Output>: Sized {
    /// When the operation may be invoked.
    spec fn pre(&self, input: Input) -> bool;

    /// What one execution guarantees, relating the states before and
    /// after the call to the input and the outcome.
    spec fn post(pre_state: Self, post_state: Self, input: Input, output: Output) -> bool;

    /// Executes the use case once.
    fn execute(&mut self, input: Input) -> (r: Output)
        requires
            old(self).pre(input),
        ensures
            Self::post(*old(self), *final(self), input, r),
    ;
}

} // verus!
