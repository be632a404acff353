//! The error taxonomy of the store.

use vstd::prelude::*;

verus! {

/// Errors raised by the store's own coordination, as opposed to failures of
/// the cached resource's refresh.
#[derive(Clone, Debug, PartialEq, Eq)]
pub enum CondvarStoreError {
    /// A caller waited for an in-flight refresh longer than the store's
    /// configured timeout.
    GetTimeout,
    /// A synchronization primitive was found in an invalid state, e.g. a
    /// prior holder terminated abnormally while holding it. The verified
    /// sequential core never raises this; it is kept in the taxonomy so that
    /// concurrent runtimes built on the core can map lock poisoning to it.
    PoisonedLock(String),
}

/// Everything a `get` can fail with: either a coordination error of the
/// store itself, or the refresh failure of the cached resource, which is
/// caller-defined and opaque to the store. The refresh failure is surfaced
/// only to the caller that led the failing refresh cycle.
#[derive(Clone, Debug, PartialEq, Eq)]
pub enum GetError<E> {
    Store(CondvarStoreError),
    Fetch(E),
}

} // verus!
