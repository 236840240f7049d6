//! What a handler answers, and the error of a cancelled computation.
use vstd::prelude::*;

use crate::effect::MapResume;

verus! {

/// The result returned by an effect handler: resume the computation with a
/// value, or cancel it.
#[derive(Debug, Clone, Copy, PartialEq, Eq, Structural)]
pub enum Control<R> {
    /// Resume the computation with the given value.
    Resume(R),
    /// Cancel the computation; the run then ends with `Err(Cancelled)`.
    Cancel,
}

impl<R> Control<R> {
    /// A `Resume` answer that continues the computation with `r`.
    pub fn resume(r: R) -> (c: Self)
        ensures
            c == Control::Resume(r),
    {
        Control::Resume(r)
    }

    /// A `Cancel` answer that aborts the computation.
    pub fn cancel() -> (c: Self)
        ensures
            c == Control::<R>::Cancel,
    {
        Control::Cancel
    }
}

impl<R> From<R> for Control<R> {
    fn from(r: R) -> (c: Self) {
        Control::Resume(r)
    }
}

impl<R> vstd::std_specs::convert::FromSpecImpl<R> for Control<R> {
    open spec fn obeys_from_spec() -> bool {
        true
    }

    open spec fn from_spec(v: R) -> Self {
        Control::Resume(v)
    }
}

/// A handler's answer with the resume value already placed in the resume
/// coproduct of the whole effect set `Effs`.
pub enum CoControl<'a, Effs: MapResume> {
    Cancel,
    Resume(Effs::Output<'a>),
}

/// The error returned when a handler cancels the computation.
#[derive(Copy, Clone, Debug, PartialEq, Eq, Structural)]
pub struct Cancelled;

impl Cancelled {
    /// The human-readable description of the error.
    pub fn to_string(&self) -> (s: String)
        ensures
            s@ == "computation was cancelled"@,
    {
        proof {
            broadcast use vstd::string::group_string_axioms;
        }
        let msg = "computation was cancelled";
        msg.to_string()
    }
}

} // verus!
