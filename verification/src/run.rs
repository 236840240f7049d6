//! The decisions of the effect runners and of the yielder.
//!
//! A computation is a generator that yields effects (behind the start signal)
//! and finally returns a value. A runner starts it with the start signal, then,
//! each time it yields, dispatches the effect to a handler and either resumes
//! the generator with the handler's value or stops with `Err(Cancelled)`. The
//! generator itself is driven by the caller; this module decides each step.
use vstd::prelude::*;

use crate::control::{Cancelled, CoControl};
use crate::coproduct::{CoprodInjector, CoprodSpec, CoprodUninjector, Coproduct, IndexSpec};
use crate::dispatch::{EmbedEffect, HandleMut, HandleWith, ProjectResume};
use crate::effect::{MapResume, Start};
use crate::hlist::IndexList;

verus! {

/// What a generator hands back when resumed: a yielded value, or its result.
#[derive(Debug, PartialEq, Eq)]
pub enum GeneratorState<Y, R> {
    Yielded(Y),
    Complete(R),
}

/// What a runner does next: resume the generator with this value, or stop
/// with this result.
#[derive(Debug, PartialEq, Eq)]
pub enum Step<Resume, R> {
    Resume(Resume),
    Done(Result<R, Cancelled>),
}

/// What a yielding generator asks for: an effect to handle, or nothing more
/// because it has finished with this value.
#[derive(Debug, PartialEq, Eq)]
pub enum Yielded<Effs, R> {
    Effect(Effs),
    Finished(R),
}

/// The value every computation is first resumed with.
pub fn start_signal<Rs>() -> (s: Coproduct<Start, Rs>)
    ensures
        s == Coproduct::<Start, Rs>::Inl(Start),
{
    Coproduct::Inl(Start)
}

/// Read what a generator yielded. A generator only ever yields effects behind
/// the start signal's position, never the start signal itself.
pub fn on_yield<Effs, R>(state: GeneratorState<Coproduct<Start, Effs>, R>) -> (y: Yielded<Effs, R>)
    requires
        !(state matches GeneratorState::Yielded(Coproduct::Inl(_))),
    ensures
        match state {
            GeneratorState::Complete(v) => y == Yielded::<Effs, R>::Finished(v),
            GeneratorState::Yielded(Coproduct::Inr(e)) => y == Yielded::<Effs, R>::Effect(e),
            GeneratorState::Yielded(Coproduct::Inl(_)) => false,
        },
{
    match state {
        GeneratorState::Complete(value) => Yielded::Finished(value),
        GeneratorState::Yielded(Coproduct::Inr(effect)) => Yielded::Effect(effect),
        GeneratorState::Yielded(Coproduct::Inl(_)) => vstd::pervasive::unreached(),
    }
}

/// Act on a handler's answer: a resume value resumes the computation behind the
/// start signal's position; a cancellation ends the run with `Err(Cancelled)`.
pub fn on_control<'a, Effs: MapResume, R>(control: CoControl<'a, Effs>) -> (step: Step<
    Coproduct<Start, Effs::Output<'a>>,
    R,
>)
    ensures
        match control {
            CoControl::Cancel => step == Step::<Coproduct<Start, Effs::Output<'a>>, R>::Done(
                Err(Cancelled),
            ),
            CoControl::Resume(r) => step == Step::<Coproduct<Start, Effs::Output<'a>>, R>::Resume(
                Coproduct::Inr(r),
            ),
        },
{
    match control {
        CoControl::Cancel => Step::Done(Err(Cancelled)),
        CoControl::Resume(r) => Step::Resume(Coproduct::Inr(r)),
    }
}

/// One step of the synchronous runner with handlers `FnMut(E) -> Control<..>`:
/// a finished computation ends the run with its value; a yielded effect goes to
/// its handler, whose answer decides the next step.
pub fn step<'a, Effs, R, Handlers, Indices>(
    state: GeneratorState<Coproduct<Start, Effs>, R>,
    handlers: &mut Handlers,
) -> (step: Step<Coproduct<Start, Effs::Output<'a>>, R>) where
    Effs: MapResume + HandleMut<'a, Effs, Handlers, Indices>,

    requires
        match state {
            GeneratorState::Complete(_) => true,
            GeneratorState::Yielded(Coproduct::Inr(e)) => e.dispatch_ready(*old(handlers)),
            GeneratorState::Yielded(Coproduct::Inl(_)) => false,
        },
    ensures
        match state {
            GeneratorState::Complete(v) => step == Step::<
                Coproduct<Start, Effs::Output<'a>>,
                R,
            >::Done(Ok(v)) && *final(handlers) == *old(handlers),
            GeneratorState::Yielded(Coproduct::Inr(e)) => exists|out: CoControl<'a, Effs>|
                #![trigger e.dispatched(*old(handlers), out)]
                e.dispatched(*old(handlers), out) && match out {
                    CoControl::Cancel => step == Step::<
                        Coproduct<Start, Effs::Output<'a>>,
                        R,
                    >::Done(Err(Cancelled)),
                    CoControl::Resume(r) => step == Step::<
                        Coproduct<Start, Effs::Output<'a>>,
                        R,
                    >::Resume(Coproduct::Inr(r)) && r.valid() && r.tag() == e.resume_pos(),
                },
            GeneratorState::Yielded(Coproduct::Inl(_)) => false,
        },
{
    match on_yield(state) {
        Yielded::Finished(value) => Step::Done(Ok(value)),
        Yielded::Effect(effect) => {
            let ghost before = *handlers;
            let out = effect.handle_mut(handlers);
            proof {
                effect.lemma_resume_pos(before, out);
            }
            on_control(out)
        },
    }
}

/// One step of the synchronous runner with stateful handlers
/// `Fn(&mut S, E) -> Control<..>` sharing `state`.
pub fn step_stateful<'a, Effs, R, Handlers, S, Indices>(
    generator: GeneratorState<Coproduct<Start, Effs>, R>,
    state: &mut S,
    handlers: &Handlers,
) -> (step: Step<Coproduct<Start, Effs::Output<'a>>, R>) where
    Effs: MapResume + HandleWith<'a, Effs, Handlers, S, Indices>,

    requires
        match generator {
            GeneratorState::Complete(_) => true,
            GeneratorState::Yielded(Coproduct::Inr(e)) => e.dispatch_ready(*old(state), *handlers),
            GeneratorState::Yielded(Coproduct::Inl(_)) => false,
        },
    ensures
        match generator {
            GeneratorState::Complete(v) => step == Step::<
                Coproduct<Start, Effs::Output<'a>>,
                R,
            >::Done(Ok(v)) && *final(state) == *old(state),
            GeneratorState::Yielded(Coproduct::Inr(e)) => exists|s: &mut S, out: CoControl<'a, Effs>|
                #![trigger e.dispatched(s, *handlers, out)]
                *s == *old(state) && *final(s) == *final(state) && e.dispatched(s, *handlers, out)
                    && match out {
                    CoControl::Cancel => step == Step::<
                        Coproduct<Start, Effs::Output<'a>>,
                        R,
                    >::Done(Err(Cancelled)),
                    CoControl::Resume(r) => step == Step::<
                        Coproduct<Start, Effs::Output<'a>>,
                        R,
                    >::Resume(Coproduct::Inr(r)) && r.valid() && r.tag() == e.resume_pos(),
                },
            GeneratorState::Yielded(Coproduct::Inl(_)) => false,
        },
{
    match on_yield(generator) {
        Yielded::Finished(value) => Step::Done(Ok(value)),
        Yielded::Effect(effect) => {
            let out = effect.handle_with(state, handlers);
            let ghost w = choose|s: &mut S|
                *s == *old(state) && *final(s) == *final(state) && effect.dispatched(
                    s,
                    *handlers,
                    out,
                );
            proof {
                effect.lemma_resume_pos(w, *handlers, out);
            }
            on_control(out)
        },
    }
}

/// What the yielder sends out for an effect `E`: the effect at its index `Idx`
/// of the effect set, behind the start signal's position.
pub fn yield_signal<Effs, E, Idx: IndexSpec>(effect: E) -> (signal: Coproduct<Start, Effs>) where
    Effs: CoprodInjector<E, Idx>,

    ensures
        signal == Coproduct::<Start, Effs>::Inr(Effs::spec_inject(effect)),
        signal.valid(),
        signal.tag() == Idx::pos() + 1,
{
    proof {
        Effs::lemma_inject(effect);
    }
    Coproduct::Inr(Effs::inject(effect))
}

/// What the yielder hands back to the computation: the resume value at the
/// effect's index `Idx`, if that is where the runner put it. A runner resumes a
/// yield only with a value at the position of the effect that was yielded, so
/// `None` marks a broken runner.
pub fn take_resume<Rs, T, Idx: IndexSpec>(resume: Coproduct<Start, Rs>) -> (value: Option<T>) where
    Rs: CoprodUninjector<T, Idx>,

    ensures
        match resume {
            Coproduct::Inr(r) => match r.spec_uninject() {
                Ok(v) => value == Some(v),
                Err(_) => value is None,
            },
            Coproduct::Inl(_) => value is None,
        },
{
    match resume {
        Coproduct::Inr(value) => match value.uninject() {
            Ok(value) => Some(value),
            Err(_) => None,
        },
        Coproduct::Inl(_) => None,
    }
}

/// A yield gets back exactly the value its handler resumed with: a resume
/// value put at the effect's index is taken out again unchanged, and it is
/// the only value that a yield at that index accepts from that position.
pub proof fn law_yield_receives_resume<Rs, T, Idx: IndexSpec>(r: T) where
    Rs: CoprodInjector<T, Idx> + CoprodUninjector<T, Idx>,

    ensures
        <Rs as CoprodUninjector<T, Idx>>::spec_uninject(
            <Rs as CoprodInjector<T, Idx>>::spec_inject(r),
        ) == Ok::<T, <Rs as CoprodUninjector<T, Idx>>::Remainder>(r),
{
    <Rs as CoprodInjector<T, Idx>>::lemma_inject(r);
    <Rs as CoprodUninjector<T, Idx>>::lemma_uninject(<Rs as CoprodInjector<T, Idx>>::spec_inject(r));
}

/// A yielded effect is answered at its own position: when the resume index of
/// every position of the effect set is that position (as it is when the effect
/// types are distinct), a handler's resume value lands at the position of the
/// effect it answers, so the yield that sent the effect takes it back.
pub proof fn law_resume_lands_at_effect<'a, Effs, Handlers, Indices>(
    effect: Effs,
    handlers: Handlers,
    resume: Effs::Output<'a>,
) where
    Effs: MapResume + HandleMut<'a, Effs, Handlers, Indices>,

    requires
        <Effs as HandleMut<'a, Effs, Handlers, Indices>>::aligned_from(0),
        effect.valid(),
        effect.dispatched(handlers, CoControl::Resume(resume)),
    ensures
        resume.valid(),
        resume.tag() == effect.tag(),
{
    effect.lemma_resume_pos(handlers, CoControl::Resume(resume));
    effect.lemma_aligned(0);
}

/// The same for stateful handlers: with aligned resume indices, a stateful
/// handler's resume value lands at the position of the effect it answers.
pub proof fn law_stateful_resume_lands_at_effect<'a, Effs, Handlers, S, Indices>(
    effect: Effs,
    state: &mut S,
    handlers: Handlers,
    resume: Effs::Output<'a>,
) where
    Effs: MapResume + HandleWith<'a, Effs, Handlers, S, Indices>,

    requires
        <Effs as HandleWith<'a, Effs, Handlers, S, Indices>>::aligned_from(0),
        effect.valid(),
        effect.dispatched(state, handlers, CoControl::Resume(resume)),
    ensures
        resume.valid(),
        resume.tag() == effect.tag(),
{
    effect.lemma_resume_pos(state, handlers, CoControl::Resume(resume));
    effect.lemma_aligned(0);
}

/// One forwarding step of `Yielder::invoke`: a sub-program that finished gives
/// its value; an effect it yielded is embedded into the outer effect set.
pub fn forward_yield<SubEffs, OuterEffs, R, Indices>(
    state: GeneratorState<Coproduct<Start, SubEffs>, R>,
) -> (y: Yielded<OuterEffs, R>) where
    SubEffs: EmbedEffect<OuterEffs, Indices>,
    OuterEffs: CoprodSpec,
    Indices: IndexList,

    requires
        match state {
            GeneratorState::Complete(_) => true,
            GeneratorState::Yielded(Coproduct::Inr(e)) => e.valid(),
            GeneratorState::Yielded(Coproduct::Inl(_)) => false,
        },
    ensures
        match state {
            GeneratorState::Complete(v) => y == Yielded::<OuterEffs, R>::Finished(v),
            GeneratorState::Yielded(Coproduct::Inr(e)) => y == Yielded::<OuterEffs, R>::Effect(
                e.spec_embed(),
            ),
            GeneratorState::Yielded(Coproduct::Inl(_)) => false,
        },
{
    match on_yield(state) {
        Yielded::Finished(value) => Yielded::Finished(value),
        Yielded::Effect(effect) => Yielded::Effect(effect.embed()),
    }
}

/// The other half of a forwarding step: the outer resume value, projected back
/// to the sub-program's resume set, resumes the sub-program. `None` when no
/// sub-effect position maps to the resume value's position, which a runner
/// that resumes each yield at the position of its effect never causes.
pub fn forward_resume<'a, SubEffs, OuterResumes, Indices>(resume: OuterResumes) -> (r: Option<
    Coproduct<Start, SubEffs::Output<'a>>,
>) where
    SubEffs: MapResume,
    OuterResumes: ProjectResume<'a, SubEffs, Indices>,
    Indices: IndexList,

    ensures
        resume.projectable() ==> r == Some(
            Coproduct::<Start, SubEffs::Output<'a>>::Inr(resume.spec_project()),
        ),
        !resume.projectable() ==> r is None,
{
    match resume.try_project() {
        Some(sub) => Some(Coproduct::Inr(sub)),
        None => None,
    }
}

} // verus!
