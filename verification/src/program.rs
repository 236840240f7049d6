//! A computation together with the handlers attached to it so far.
use vstd::prelude::*;

use crate::coproduct::{CNil, CoprodSpec, Coproduct, CoproductSubsetter};
use crate::dispatch::HandlersToEffects;
use crate::effect::MapResume;
use crate::hlist::{Append, HCons, HListSpec, HNil};

verus! {

/// A computation `Co` over the effect set `Effs`, with the handlers attached so
/// far and the effects that still have none (`Remaining`).
///
/// Handlers are added one at a time with `handle` or several at once with
/// `handle_all`. Once every effect has a handler (`Remaining = CNil`) the
/// computation and its handlers can be taken out and run.
pub struct Program<Effs, Co, Remaining, Handlers> {
    co: Co,
    handlers: Handlers,
    _effects: core::marker::PhantomData<Effs>,
    _remaining: core::marker::PhantomData<Remaining>,
}

impl<Effs, Co, Remaining, Handlers> Program<Effs, Co, Remaining, Handlers> {
    /// The computation.
    pub closed spec fn computation(self) -> Co {
        self.co
    }

    /// The handlers attached so far, in order of attachment.
    pub closed spec fn attached(self) -> Handlers {
        self.handlers
    }
}

impl<Effs: MapResume, Co> Program<Effs, Co, Effs, HNil> {
    /// A program from a computation, with no handler attached yet.
    pub fn from_co(co: Co) -> (p: Self)
        ensures
            p.computation() == co,
            p.attached() == HNil,
    {
        Program {
            co,
            handlers: HNil,
            _effects: core::marker::PhantomData,
            _remaining: core::marker::PhantomData,
        }
    }
}

impl<Effs, Co> Program<Effs, Co, Effs, HNil> {
    /// The computation of a program that has no handler yet, for running it
    /// inside another program, whose handlers then answer its effects.
    pub fn into_co(self) -> (co: Co)
        ensures
            co == self.computation(),
    {
        self.co
    }
}

impl<Effs, Co, Head, Tail, Handlers: HListSpec> Program<Effs, Co, Coproduct<Head, Tail>, Handlers> {
    /// Attach a handler, sync or async, for one of the effects that have none;
    /// the count of remaining effects goes down by one. The handlers may come
    /// in any order: a run finds each effect's handler by the effect's type
    /// (see `dispatch::law_handler_order`).
    pub fn handle<F>(self, handler: F) -> (p: Program<
        Effs,
        Co,
        Tail,
        <Handlers as Append<HCons<F, HNil>>>::Output,
    >) where Handlers: Append<HCons<F, HNil>>
        ensures
            p.computation() == self.computation(),
            p.attached() == self.attached().spec_append(HCons { head: handler, tail: HNil }),
            <Handlers as Append<HCons<F, HNil>>>::Output::len() == Handlers::len() + 1,
    {
        proof {
            Handlers::lemma_append_len();
        }
        Program {
            co: self.co,
            handlers: self.handlers.append(HCons { head: handler, tail: HNil }),
            _effects: core::marker::PhantomData,
            _remaining: core::marker::PhantomData,
        }
    }
}

impl<Effs: MapResume, Co, Remaining: CoprodSpec, Handlers: HListSpec> Program<
    Effs,
    Co,
    Remaining,
    Handlers,
> {
    /// Attach a list of handlers at once, for any of the remaining effects, in
    /// any order. The effects that they handle are read off the handlers'
    /// argument types and taken out of the remaining ones.
    pub fn handle_all<'a, H, HandleIdx, SubsetIdx>(self, handlers: H) -> (p: Program<
        Effs,
        Co,
        <Remaining as CoproductSubsetter<H::Effects, SubsetIdx>>::Remainder,
        <Handlers as Append<H>>::Output,
    >) where
        H: HandlersToEffects<'a, Effs, HandleIdx>,
        Remaining: CoproductSubsetter<H::Effects, SubsetIdx>,
        Handlers: Append<H>,

        ensures
            p.computation() == self.computation(),
            p.attached() == self.attached().spec_append(handlers),
            <Remaining as CoproductSubsetter<H::Effects, SubsetIdx>>::Remainder::arity() + H::len()
                == Remaining::arity(),
            <Handlers as Append<H>>::Output::len() == Handlers::len() + H::len(),
    {
        proof {
            H::lemma_effects_arity();
            <Remaining as CoproductSubsetter<H::Effects, SubsetIdx>>::lemma_remainder_arity();
            Handlers::lemma_append_len();
        }
        Program {
            co: self.co,
            handlers: self.handlers.append(handlers),
            _effects: core::marker::PhantomData,
            _remaining: core::marker::PhantomData,
        }
    }
}

impl<Effs, Co, Handlers> Program<Effs, Co, CNil, Handlers> {
    /// The computation and its handlers, once every effect has a handler.
    pub fn into_parts(self) -> (parts: (Co, Handlers))
        ensures
            parts == (self.computation(), self.attached()),
    {
        (self.co, self.handlers)
    }
}

/// Attach a handler for the next effect of a program that has none; the same
/// as `Program::handle`.
pub fn handle<Effs, Co, Head, Tail, Handlers, F>(
    program: Program<Effs, Co, Coproduct<Head, Tail>, Handlers>,
    handler: F,
) -> (p: Program<Effs, Co, Tail, <Handlers as Append<HCons<F, HNil>>>::Output>) where
    Handlers: HListSpec + Append<HCons<F, HNil>>,

    ensures
        p.computation() == program.computation(),
        p.attached() == program.attached().spec_append(HCons { head: handler, tail: HNil }),
{
    program.handle(handler)
}

} // verus!
