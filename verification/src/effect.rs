//! Effects, and the coproducts of their resume values.
use vstd::prelude::*;

use crate::coproduct::{CNil, CoprodInjector, CoprodSpec, Coproduct, Here, IndexSpec, There};

verus! {

/// An algebraic effect that can be yielded from a computation.
///
/// `Resume<'r>` is the type of the value that a handler hands back to resume the
/// computation after this effect was yielded; the lifetime lets it borrow.
pub trait Effect {
    type Resume<'r>;
}

/// Effects whose resume type is covariant in its lifetime: a resume value with
/// a longer lifetime can stand where a shorter one is expected.
pub trait CovariantResume: Effect {
    /// The same resume value, seen at the shorter lifetime.
    fn shorten_resume<'a: 'b, 'b>(resume: Self::Resume<'a>) -> (out: Self::Resume<'b>)
        ensures
            out == resume,
    ;
}

/// Maps a coproduct of effects to the coproduct of their resume types, position by position.
pub trait MapResume: CoprodSpec {
    type Output<'r>: CoprodSpec;

    /// The resume coproduct has one position per effect.
    proof fn lemma_output_arity<'r>()
        ensures
            Self::Output::<'r>::arity() == Self::arity(),
    ;
}

impl MapResume for CNil {
    type Output<'r> = CNil;

    proof fn lemma_output_arity<'r>() {
    }
}

impl<H: Effect, T: MapResume> MapResume for Coproduct<H, T> {
    type Output<'r> = Coproduct<H::Resume<'r>, T::Output<'r>>;

    proof fn lemma_output_arity<'r>() {
        T::lemma_output_arity();
    }
}

/// A coproduct of effects, usable for computations that live for `'a`.
pub trait Effects<'a>: MapResume + Send + Sync + 'a {

}

impl<'a, E> Effects<'a> for E where E: MapResume + Send + Sync + 'a {

}

/// The coproduct of resume types for the effect set `E`.
pub type Resumes<'r, E> = <E as MapResume>::Output<'r>;

/// Put a resume value into the resume coproduct at the position of the effect `E`.
///
/// The position is found from the effect type (through `Index`), not from the
/// resume type, so that two effects with the same resume type stay apart.
pub trait InjectResume<'a, E: Effect, Index: IndexSpec>: MapResume where
    Self::Output<'a>: CoprodInjector<E::Resume<'a>, Index>,
 {
    fn inject_resume(r: E::Resume<'a>) -> (out: Self::Output<'a>)
        ensures
            out == <Self::Output<'a> as CoprodInjector<E::Resume<'a>, Index>>::spec_inject(r),
    ;
}

impl<'a, E: Effect, T: MapResume> InjectResume<'a, E, Here> for Coproduct<E, T> {
    fn inject_resume(r: E::Resume<'a>) -> (out: Self::Output<'a>) {
        Coproduct::Inl(r)
    }
}

impl<'a, H: Effect, E: Effect, T: MapResume, TailIndex: IndexSpec> InjectResume<
    'a,
    E,
    There<TailIndex>,
> for Coproduct<H, T> where
    T: InjectResume<'a, E, TailIndex>,
    T::Output<'a>: CoprodInjector<E::Resume<'a>, TailIndex>,
 {
    fn inject_resume(r: E::Resume<'a>) -> (out: Self::Output<'a>) {
        Coproduct::Inr(T::inject_resume(r))
    }
}

/// The signal that starts a computation; it is put in front of every effect set.
#[derive(Copy, Clone, Debug, PartialEq, Eq, Structural)]
pub struct Start;

impl Effect for Start {
    type Resume<'r> = Start;
}

impl CovariantResume for Start {
    fn shorten_resume<'a: 'b, 'b>(resume: Start) -> (out: Start)
        ensures
            out == resume,
    {
        resume
    }
}

/// Turn a coproduct of resume values from a longer lifetime into a shorter one.
pub trait ShortenResumes: MapResume {
    fn shorten_resumes<'a: 'b, 'b>(resumes: Self::Output<'a>) -> (out: Self::Output<'b>)
        ensures
            out == resumes,
            resumes.valid() ==> out.valid() && out.tag() == resumes.tag(),
    ;
}

impl ShortenResumes for CNil {
    fn shorten_resumes<'a: 'b, 'b>(resumes: CNil) -> (out: CNil)
        ensures
            out == resumes,
    {
        resumes
    }
}

impl<H: CovariantResume, T: ShortenResumes> ShortenResumes for Coproduct<H, T> {
    fn shorten_resumes<'a: 'b, 'b>(resumes: Coproduct<H::Resume<'a>, T::Output<'a>>) -> (out:
        Coproduct<H::Resume<'b>, T::Output<'b>>) {
        match resumes {
            Coproduct::Inl(head) => Coproduct::Inl(H::shorten_resume(head)),
            Coproduct::Inr(tail) => Coproduct::Inr(T::shorten_resumes(tail)),
        }
    }
}

/// An effect set with the start signal in front.
pub type CanStart<Effs> = Coproduct<Start, Effs>;

/// A type with no value that anyone outside this library can build: the resume
/// type of effects that never resume.
pub struct Never {
    _unconstructible: bool,
}

} // verus!
