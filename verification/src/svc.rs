//! The generic service-construction interface the routing core is built
//! around: a stack builds a service for a target, and composed layers
//! choose between two alternative service shapes with [`Either`].

use vstd::prelude::*;

verus! {

/// Readiness of an asynchronous step, as reported by the embedding
/// runtime.
#[derive(Clone, Copy, Debug)]
pub enum Async<T> {
    Ready(T),
    NotReady,
}

/// Outcome of polling an asynchronous step: ready or not when it is
/// still healthy, or its error.
pub type Poll<T, E> = Result<Async<T>, E>;

/// One of two alternative service shapes produced by a layered stack.
#[derive(Clone, Copy, Debug)]
pub enum Either<A, B> {
    A(A),
    B(B),
}

/// Builds a service for a target; the collaborator interface through
/// which each layer constructs what it wraps.
pub trait Stack<T> {
    type Value;

    type Error;

    fn make(&self, target: &T) -> Result<Self::Value, Self::Error>;
}

/// A stack layer that adds nothing: the identity element of layering.
#[derive(Clone, Copy, Debug)]
pub struct Identity;

} // verus!
