//! Markers for whether a computation may be sent to another thread.
use vstd::prelude::*;

verus! {

/// Only the markers of this module implement it; it keeps `Locality` closed.
pub trait Sealed {

}

/// Marker for computations that are not `Send`; the default.
pub struct Local;

/// Marker for computations that are `Send`, so that they can run on
/// multi-threaded executors.
pub struct Sendable;

impl Sealed for Local {

}

impl Sealed for Sendable {

}

/// Whether a computation is `Send`: implemented by `Local` and `Sendable` only.
pub trait Locality: Sealed + 'static {
    /// True for the marker of `Send` computations.
    spec fn is_send() -> bool;
}

impl Locality for Local {
    open spec fn is_send() -> bool {
        false
    }
}

impl Locality for Sendable {
    open spec fn is_send() -> bool {
        true
    }
}

} // verus!
