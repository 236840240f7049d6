//! Answers of a single hand-written handler that matches on the whole effect set.
use vstd::prelude::*;

use crate::control::CoControl;
use crate::coproduct::{CoprodInjector, IndexSpec};
use crate::effect::{Effect, InjectResume, MapResume};

verus! {

/// Build the answer of a single dynamic handler that resumes effect `E` with
/// `value`: the value is put at `E`'s position of the resume set.
pub fn resume<'a, Effs, E, Idx: IndexSpec>(value: E::Resume<'a>) -> (c: CoControl<'a, Effs>) where
    Effs: MapResume + InjectResume<'a, E, Idx>,
    Effs::Output<'a>: CoprodInjector<E::Resume<'a>, Idx>,
    E: Effect,

    ensures
        c == CoControl::<'a, Effs>::Resume(
            <Effs::Output<'a> as CoprodInjector<E::Resume<'a>, Idx>>::spec_inject(value),
        ),
{
    CoControl::Resume(<Effs as InjectResume<'a, E, Idx>>::inject_resume(value))
}

} // verus!
