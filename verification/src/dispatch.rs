//! Dispatch of a yielded effect to the handler for its type, and the
//! coproduct conversions used to forward the effects of a sub-program.
use vstd::prelude::*;

use crate::control::{CoControl, Control};
use crate::coproduct::{CNil, CoprodAt, CoprodInjector, CoprodSpec, Coproduct, Here, IndexSpec, There};
use crate::effect::{Effect, InjectResume, MapResume};
use crate::hlist::{HCons, HListSpec, HNil, IndexList};

verus! {

/// A handler's `Control` answer for effect `CH`, with the resume value put at
/// index `I` of the resume coproduct of `Effs`.
pub open spec fn lift_control<'a, Effs, CH: Effect, I: IndexSpec>(
    c: Control<CH::Resume<'a>>,
) -> CoControl<'a, Effs> where
    Effs: MapResume + InjectResume<'a, CH, I>,
    Effs::Output<'a>: CoprodInjector<CH::Resume<'a>, I>,
 {
    match c {
        Control::Resume(r) => CoControl::Resume(
            <Effs::Output<'a> as CoprodInjector<CH::Resume<'a>, I>>::spec_inject(r),
        ),
        Control::Cancel => CoControl::Cancel,
    }
}

/// Lift a handler's answer for effect `CH` into the resume coproduct of `Effs`,
/// putting a resume value at index `I`.
pub fn co_control<'a, Effs, CH: Effect, I: IndexSpec>(c: Control<CH::Resume<'a>>) -> (out: CoControl<
    'a,
    Effs,
>) where
    Effs: MapResume + InjectResume<'a, CH, I>,
    Effs::Output<'a>: CoprodInjector<CH::Resume<'a>, I>,

    ensures
        out == lift_control::<'a, Effs, CH, I>(c),
{
    match c {
        Control::Resume(r) => CoControl::Resume(Effs::inject_resume(r)),
        Control::Cancel => CoControl::Cancel,
    }
}

/// `out` is an answer that the handler `f` may give on `effect`, lifted into
/// the resume coproduct of `Effs` at index `I`.
pub open spec fn answered_by<'a, Effs, CH: Effect, I: IndexSpec, F>(
    f: F,
    effect: CH,
    out: CoControl<'a, Effs>,
) -> bool where
    Effs: MapResume + InjectResume<'a, CH, I>,
    Effs::Output<'a>: CoprodInjector<CH::Resume<'a>, I>,
    F: FnMut(CH) -> Control<CH::Resume<'a>>,
 {
    exists|c: Control<CH::Resume<'a>>|
        call_ensures(f, (effect,), c) && out == lift_control::<'a, Effs, CH, I>(c)
}

/// Find, in a list of handlers `FnMut(CH) -> Control<..>`, the one at position
/// `FindIdx`, and call it on an effect of type `CH`.
pub trait FindHandler<'a, Effs: MapResume, CH: Effect, InjectIdx: IndexSpec, FindIdx>: Sized where
    Effs: InjectResume<'a, CH, InjectIdx>,
    Effs::Output<'a>: CoprodInjector<CH::Resume<'a>, InjectIdx>,
 {
    /// The type of the handler at position `FindIdx`.
    type Found: FnMut(CH) -> Control<CH::Resume<'a>>;

    /// The handler at position `FindIdx`.
    spec fn found(&self) -> Self::Found;

    /// Whether the effect is accepted and how it is answered depend on the
    /// found handler alone.
    proof fn lemma_found(&self, effect: CH, out: CoControl<'a, Effs>)
        ensures
            self.handler_ready(effect) == call_requires(self.found(), (effect,)),
            self.handled(effect, out) == answered_by::<'a, Effs, CH, InjectIdx, Self::Found>(
                self.found(),
                effect,
                out,
            ),
    ;

    /// The handler that is found accepts this effect.
    spec fn handler_ready(&self, effect: CH) -> bool;

    /// `out` is what the found handler answered on `effect`, lifted into the
    /// resume coproduct of `Effs`.
    spec fn handled(&self, effect: CH, out: CoControl<'a, Effs>) -> bool;

    /// A resume answer is put at position `InjectIdx` of the resume coproduct.
    proof fn lemma_resume_pos(&self, effect: CH, out: CoControl<'a, Effs>)
        requires
            self.handled(effect, out),
        ensures
            out matches CoControl::Resume(o) ==> o.valid() && o.tag() == InjectIdx::pos(),
    ;

    fn call_handler(&mut self, effect: CH) -> (out: CoControl<'a, Effs>)
        requires
            old(self).handler_ready(effect),
        ensures
            old(self).handled(effect, out),
    ;
}

impl<'a, Effs, CH, F, FTail, InjectIdx: IndexSpec> FindHandler<
    'a,
    Effs,
    CH,
    InjectIdx,
    Here,
> for HCons<F, FTail> where
    Effs: MapResume + InjectResume<'a, CH, InjectIdx>,
    Effs::Output<'a>: CoprodInjector<CH::Resume<'a>, InjectIdx>,
    CH: Effect,
    F: FnMut(CH) -> Control<CH::Resume<'a>>,
 {
    type Found = F;

    open spec fn found(&self) -> F {
        self.head
    }

    proof fn lemma_found(&self, effect: CH, out: CoControl<'a, Effs>) {
    }

    open spec fn handler_ready(&self, effect: CH) -> bool {
        call_requires(self.head, (effect,))
    }

    open spec fn handled(&self, effect: CH, out: CoControl<'a, Effs>) -> bool {
        exists|c: Control<CH::Resume<'a>>|
            call_ensures(self.head, (effect,), c) && out == lift_control::<'a, Effs, CH, InjectIdx>(
                c,
            )
    }

    proof fn lemma_resume_pos(&self, effect: CH, out: CoControl<'a, Effs>) {
        let c = choose|c: Control<CH::Resume<'a>>|
            call_ensures(self.head, (effect,), c) && out == lift_control::<'a, Effs, CH, InjectIdx>(
                c,
            );
        if let Control::Resume(r) = c {
            <Effs::Output<'a> as CoprodInjector<CH::Resume<'a>, InjectIdx>>::lemma_inject(r);
        }
    }

    fn call_handler(&mut self, effect: CH) -> (out: CoControl<'a, Effs>) {
        proof {
            broadcast use vstd::function::group_function_axioms;
        }
        let answer = (self.head)(effect);
        let out = co_control::<'a, Effs, CH, InjectIdx>(answer);
        assert(out == lift_control::<'a, Effs, CH, InjectIdx>(answer));
        out
    }
}

impl<'a, Effs, CH, FHead, FTail, InjectIdx: IndexSpec, I> FindHandler<'a, Effs, CH, InjectIdx, There<I>> for HCons<
    FHead,
    FTail,
> where
    Effs: MapResume + InjectResume<'a, CH, InjectIdx>,
    Effs::Output<'a>: CoprodInjector<CH::Resume<'a>, InjectIdx>,
    CH: Effect,
    FTail: FindHandler<'a, Effs, CH, InjectIdx, I>,
 {
    type Found = FTail::Found;

    open spec fn found(&self) -> FTail::Found {
        self.tail.found()
    }

    proof fn lemma_found(&self, effect: CH, out: CoControl<'a, Effs>) {
        self.tail.lemma_found(effect, out);
    }

    open spec fn handler_ready(&self, effect: CH) -> bool {
        self.tail.handler_ready(effect)
    }

    open spec fn handled(&self, effect: CH, out: CoControl<'a, Effs>) -> bool {
        self.tail.handled(effect, out)
    }

    proof fn lemma_resume_pos(&self, effect: CH, out: CoControl<'a, Effs>) {
        self.tail.lemma_resume_pos(effect, out);
    }

    fn call_handler(&mut self, effect: CH) -> (out: CoControl<'a, Effs>) {
        self.tail.call_handler(effect)
    }
}

/// Find, in a list of handlers `Fn(&mut S, CH) -> Control<..>`, the one at position
/// `FindIdx`, and call it on the shared state and an effect of type `CH`.
pub trait FindHandlerWith<'a, Effs: MapResume, CH: Effect, S, InjectIdx: IndexSpec, FindIdx>: Sized {
    /// The handler that is found accepts this effect with this state.
    spec fn handler_ready(&self, state: S, effect: CH) -> bool;

    /// `out` is what the found handler answered on `state` and `effect`,
    /// lifted into the resume coproduct of `Effs`.
    spec fn handled(&self, state: &mut S, effect: CH, out: CoControl<'a, Effs>) -> bool;

    /// A resume answer is put at position `InjectIdx` of the resume coproduct.
    proof fn lemma_resume_pos(&self, state: &mut S, effect: CH, out: CoControl<'a, Effs>)
        requires
            self.handled(state, effect, out),
        ensures
            out matches CoControl::Resume(o) ==> o.valid() && o.tag() == InjectIdx::pos(),
    ;

    fn call_handler(&self, state: &mut S, effect: CH) -> (out: CoControl<'a, Effs>)
        requires
            self.handler_ready(*old(state), effect),
        ensures
            exists|s: &mut S|
                *s == *old(state) && *final(s) == *final(state) && self.handled(s, effect, out),
    ;
}

impl<'a, Effs, CH, F, FTail, S, InjectIdx: IndexSpec> FindHandlerWith<
    'a,
    Effs,
    CH,
    S,
    InjectIdx,
    Here,
> for HCons<F, FTail> where
    Effs: MapResume + InjectResume<'a, CH, InjectIdx>,
    Effs::Output<'a>: CoprodInjector<CH::Resume<'a>, InjectIdx>,
    CH: Effect,
    F: Fn(&mut S, CH) -> Control<CH::Resume<'a>>,
 {
    open spec fn handler_ready(&self, state: S, effect: CH) -> bool {
        forall|s: &mut S| *s == state ==> call_requires(self.head, (s, effect))
    }

    open spec fn handled(&self, state: &mut S, effect: CH, out: CoControl<'a, Effs>) -> bool {
        exists|c: Control<CH::Resume<'a>>|
            call_ensures(self.head, (state, effect), c) && out == lift_control::<
                'a,
                Effs,
                CH,
                InjectIdx,
            >(c)
    }

    proof fn lemma_resume_pos(&self, state: &mut S, effect: CH, out: CoControl<'a, Effs>) {
        let c = choose|c: Control<CH::Resume<'a>>|
            call_ensures(self.head, (state, effect), c) && out == lift_control::<
                'a,
                Effs,
                CH,
                InjectIdx,
            >(c);
        if let Control::Resume(r) = c {
            <Effs::Output<'a> as CoprodInjector<CH::Resume<'a>, InjectIdx>>::lemma_inject(r);
        }
    }

    fn call_handler(&self, state: &mut S, effect: CH) -> (out: CoControl<'a, Effs>) {
        let answer = (self.head)(state, effect);
        let out = co_control::<'a, Effs, CH, InjectIdx>(answer);
        assert(exists|s: &mut S|
            *s == *old(state) && *final(s) == *final(state) && call_ensures(self.head, (s, effect), answer));
        let ghost w = choose|s: &mut S|
            *s == *old(state) && *final(s) == *final(state) && call_ensures(self.head, (s, effect), answer);
        assert(out == lift_control::<'a, Effs, CH, InjectIdx>(answer));
        assert(self.handled(w, effect, out));
        out
    }
}

impl<'a, Effs, CH, FHead, FTail, S, InjectIdx: IndexSpec, I> FindHandlerWith<
    'a,
    Effs,
    CH,
    S,
    InjectIdx,
    There<I>,
> for HCons<FHead, FTail> where
    Effs: MapResume,
    CH: Effect,
    FTail: FindHandlerWith<'a, Effs, CH, S, InjectIdx, I>,
 {
    open spec fn handler_ready(&self, state: S, effect: CH) -> bool {
        self.tail.handler_ready(state, effect)
    }

    open spec fn handled(&self, state: &mut S, effect: CH, out: CoControl<'a, Effs>) -> bool {
        self.tail.handled(state, effect, out)
    }

    proof fn lemma_resume_pos(&self, state: &mut S, effect: CH, out: CoControl<'a, Effs>) {
        self.tail.lemma_resume_pos(state, effect, out);
    }

    fn call_handler(&self, state: &mut S, effect: CH) -> (out: CoControl<'a, Effs>) {
        let out = self.tail.call_handler(state, effect);
        let ghost w = choose|s: &mut S|
            *s == *old(state) && *final(s) == *final(state) && self.tail.handled(s, effect, out);
        assert(self.handled(w, effect, out));
        out
    }
}

} // verus!

verus! {

/// Dispatch an effect coproduct to the handler for the effect it holds.
///
/// `Indices` holds, for each position of the coproduct, the pair of the index at
/// which the resume value is put (`InjectIdx`) and the position of the handler in
/// the handler list (`FindIdx`).
pub trait HandleMut<'a, Effs: MapResume, Handlers, Indices>: CoprodSpec {
    /// The handler for the effect that `self` holds accepts it.
    spec fn dispatch_ready(self, handlers: Handlers) -> bool;

    /// `out` is the answer of the handler for the effect that `self` holds.
    spec fn dispatched(self, handlers: Handlers, out: CoControl<'a, Effs>) -> bool;

    /// The position in the resume coproduct where that handler's resume value is put.
    spec fn resume_pos(self) -> nat;

    /// A resume answer lands at `resume_pos` of the resume coproduct.
    proof fn lemma_resume_pos(self, handlers: Handlers, out: CoControl<'a, Effs>)
        ensures
            self.dispatched(handlers, out) ==> (out matches CoControl::Resume(o) ==> o.valid()
                && o.tag() == self.resume_pos()),
    ;

    /// The resume index of each position, counted from `depth`, is that position.
    spec fn aligned_from(depth: nat) -> bool;

    /// With aligned indices, a resume value lands where the effect was.
    proof fn lemma_aligned(self, depth: nat)
        requires
            Self::aligned_from(depth),
        ensures
            self.valid() ==> self.resume_pos() == depth + self.tag(),
    ;

    fn handle_mut(self, handlers: &mut Handlers) -> (out: CoControl<'a, Effs>)
        requires
            self.dispatch_ready(*old(handlers)),
        ensures
            self.dispatched(*old(handlers), out),
    ;
}

impl<'a, Effs: MapResume, Handlers> HandleMut<'a, Effs, Handlers, HNil> for CNil {
    open spec fn dispatch_ready(self, handlers: Handlers) -> bool {
        false
    }

    open spec fn dispatched(self, handlers: Handlers, out: CoControl<'a, Effs>) -> bool {
        false
    }

    open spec fn resume_pos(self) -> nat {
        0
    }

    proof fn lemma_resume_pos(self, handlers: Handlers, out: CoControl<'a, Effs>) {
    }

    open spec fn aligned_from(depth: nat) -> bool {
        true
    }

    proof fn lemma_aligned(self, depth: nat) {
    }

    fn handle_mut(self, handlers: &mut Handlers) -> (out: CoControl<'a, Effs>) {
        vstd::pervasive::unreached()
    }
}

impl<'a, Effs, CH, CTail, Handlers, InjectIdx: IndexSpec, FindIdx, ITail> HandleMut<
    'a,
    Effs,
    Handlers,
    HCons<(InjectIdx, FindIdx), ITail>,
> for Coproduct<CH, CTail> where
    Effs: MapResume + InjectResume<'a, CH, InjectIdx>,
    Effs::Output<'a>: CoprodInjector<CH::Resume<'a>, InjectIdx>,
    CH: Effect,
    Handlers: FindHandler<'a, Effs, CH, InjectIdx, FindIdx>,
    CTail: HandleMut<'a, Effs, Handlers, ITail>,
 {
    open spec fn dispatch_ready(self, handlers: Handlers) -> bool {
        match self {
            Coproduct::Inl(head) => handlers.handler_ready(head),
            Coproduct::Inr(rest) => rest.dispatch_ready(handlers),
        }
    }

    open spec fn dispatched(self, handlers: Handlers, out: CoControl<'a, Effs>) -> bool {
        match self {
            Coproduct::Inl(head) => handlers.handled(head, out),
            Coproduct::Inr(rest) => rest.dispatched(handlers, out),
        }
    }

    open spec fn resume_pos(self) -> nat {
        match self {
            Coproduct::Inl(_) => InjectIdx::pos(),
            Coproduct::Inr(rest) => rest.resume_pos(),
        }
    }

    proof fn lemma_resume_pos(self, handlers: Handlers, out: CoControl<'a, Effs>) {
        match self {
            Coproduct::Inl(head) => {
                if handlers.handled(head, out) {
                    handlers.lemma_resume_pos(head, out);
                }
            },
            Coproduct::Inr(rest) => rest.lemma_resume_pos(handlers, out),
        }
    }

    open spec fn aligned_from(depth: nat) -> bool {
        InjectIdx::pos() == depth && CTail::aligned_from(depth + 1)
    }

    proof fn lemma_aligned(self, depth: nat) {
        if let Coproduct::Inr(rest) = self {
            rest.lemma_aligned(depth + 1);
        }
    }

    fn handle_mut(self, handlers: &mut Handlers) -> (out: CoControl<'a, Effs>) {
        match self {
            Coproduct::Inl(head) => handlers.call_handler(head),
            Coproduct::Inr(rest) => rest.handle_mut(handlers),
        }
    }
}

/// Dispatch an effect coproduct, together with the shared state, to the
/// stateful handler for the effect it holds.
pub trait HandleWith<'a, Effs: MapResume, Handlers, S, Indices>: CoprodSpec {
    spec fn dispatch_ready(self, state: S, handlers: Handlers) -> bool;

    spec fn dispatched(self, state: &mut S, handlers: Handlers, out: CoControl<'a, Effs>) -> bool;

    spec fn resume_pos(self) -> nat;

    /// A resume answer lands at `resume_pos` of the resume coproduct.
    proof fn lemma_resume_pos(self, state: &mut S, handlers: Handlers, out: CoControl<'a, Effs>)
        ensures
            self.dispatched(state, handlers, out) ==> (out matches CoControl::Resume(o)
                ==> o.valid() && o.tag() == self.resume_pos()),
    ;

    /// The resume index of each position, counted from `depth`, is that position.
    spec fn aligned_from(depth: nat) -> bool;

    /// With aligned indices, a resume value lands where the effect was.
    proof fn lemma_aligned(self, depth: nat)
        requires
            Self::aligned_from(depth),
        ensures
            self.valid() ==> self.resume_pos() == depth + self.tag(),
    ;

    fn handle_with(self, state: &mut S, handlers: &Handlers) -> (out: CoControl<'a, Effs>)
        requires
            self.dispatch_ready(*old(state), *handlers),
        ensures
            exists|s: &mut S|
                *s == *old(state) && *final(s) == *final(state) && self.dispatched(
                    s,
                    *handlers,
                    out,
                ),
    ;
}

impl<'a, Effs: MapResume, Handlers, S> HandleWith<'a, Effs, Handlers, S, HNil> for CNil {
    open spec fn dispatch_ready(self, state: S, handlers: Handlers) -> bool {
        false
    }

    open spec fn dispatched(self, state: &mut S, handlers: Handlers, out: CoControl<'a, Effs>) -> bool {
        false
    }

    open spec fn resume_pos(self) -> nat {
        0
    }

    proof fn lemma_resume_pos(self, state: &mut S, handlers: Handlers, out: CoControl<'a, Effs>) {
    }

    open spec fn aligned_from(depth: nat) -> bool {
        true
    }

    proof fn lemma_aligned(self, depth: nat) {
    }

    fn handle_with(self, state: &mut S, handlers: &Handlers) -> (out: CoControl<'a, Effs>) {
        vstd::pervasive::unreached()
    }
}

impl<'a, Effs, CH, CTail, Handlers, S, InjectIdx: IndexSpec, FindIdx, ITail> HandleWith<
    'a,
    Effs,
    Handlers,
    S,
    HCons<(InjectIdx, FindIdx), ITail>,
> for Coproduct<CH, CTail> where
    Effs: MapResume,
    CH: Effect,
    Handlers: FindHandlerWith<'a, Effs, CH, S, InjectIdx, FindIdx>,
    CTail: HandleWith<'a, Effs, Handlers, S, ITail>,
 {
    open spec fn dispatch_ready(self, state: S, handlers: Handlers) -> bool {
        match self {
            Coproduct::Inl(head) => handlers.handler_ready(state, head),
            Coproduct::Inr(rest) => rest.dispatch_ready(state, handlers),
        }
    }

    open spec fn dispatched(self, state: &mut S, handlers: Handlers, out: CoControl<'a, Effs>) -> bool {
        match self {
            Coproduct::Inl(head) => handlers.handled(state, head, out),
            Coproduct::Inr(rest) => rest.dispatched(state, handlers, out),
        }
    }

    open spec fn resume_pos(self) -> nat {
        match self {
            Coproduct::Inl(_) => InjectIdx::pos(),
            Coproduct::Inr(rest) => rest.resume_pos(),
        }
    }

    proof fn lemma_resume_pos(self, state: &mut S, handlers: Handlers, out: CoControl<'a, Effs>) {
        match self {
            Coproduct::Inl(head) => {
                if handlers.handled(state, head, out) {
                    handlers.lemma_resume_pos(state, head, out);
                }
            },
            Coproduct::Inr(rest) => rest.lemma_resume_pos(state, handlers, out),
        }
    }

    open spec fn aligned_from(depth: nat) -> bool {
        InjectIdx::pos() == depth && CTail::aligned_from(depth + 1)
    }

    proof fn lemma_aligned(self, depth: nat) {
        if let Coproduct::Inr(rest) = self {
            rest.lemma_aligned(depth + 1);
        }
    }

    fn handle_with(self, state: &mut S, handlers: &Handlers) -> (out: CoControl<'a, Effs>) {
        match self {
            Coproduct::Inl(head) => {
                let out = handlers.call_handler(state, head);
                let ghost w = choose|s: &mut S|
                    *s == *old(state) && *final(s) == *final(state) && handlers.handled(s, head, out);
                assert(self.dispatched(w, *handlers, out));
                out
            },
            Coproduct::Inr(rest) => {
                let out = rest.handle_with(state, handlers);
                let ghost w = choose|s: &mut S|
                    *s == *old(state) && *final(s) == *final(state) && rest.dispatched(s, *handlers, out);
                assert(self.dispatched(w, *handlers, out));
                out
            },
        }
    }
}

} // verus!

verus! {

/// The coproduct of the effects that a list of handlers handles, one per
/// handler and in the same order, read off the handlers' argument types.
pub trait HandlersToEffects<'a, Effs: MapResume, Indices>: HListSpec {
    type Effects: CoprodSpec;

    /// One effect per handler.
    proof fn lemma_effects_arity()
        ensures
            Self::Effects::arity() == Self::len(),
    ;
}

impl<'a, Effs: MapResume> HandlersToEffects<'a, Effs, HNil> for HNil {
    type Effects = CNil;

    proof fn lemma_effects_arity() {
    }
}

/// Marks a handler `FnMut(CH) -> Control<..>` in `HandlersToEffects` indices.
pub struct SyncHandler;

impl<'a, Effs, F, FTail, CH, Index: IndexSpec, ITail> HandlersToEffects<
    'a,
    Effs,
    HCons<(CH, Index, SyncHandler), ITail>,
> for HCons<F, FTail> where
    Effs: MapResume + InjectResume<'a, CH, Index>,
    Effs::Output<'a>: CoprodInjector<CH::Resume<'a>, Index>,
    CH: Effect,
    F: FnMut(CH) -> Control<CH::Resume<'a>>,
    FTail: HandlersToEffects<'a, Effs, ITail>,
 {
    type Effects = Coproduct<CH, FTail::Effects>;

    proof fn lemma_effects_arity() {
        FTail::lemma_effects_arity();
    }
}

/// Marks a handler `Fn(&mut S, CH) -> Control<..>` in `HandlersToEffects` indices.
pub struct SyncStatefulHandler<S> {
    _marker: core::marker::PhantomData<S>,
}

impl<'a, Effs, F, FTail, CH, S, Index: IndexSpec, ITail> HandlersToEffects<
    'a,
    Effs,
    HCons<(CH, Index, SyncStatefulHandler<S>), ITail>,
> for HCons<F, FTail> where
    Effs: MapResume + InjectResume<'a, CH, Index>,
    Effs::Output<'a>: CoprodInjector<CH::Resume<'a>, Index>,
    CH: Effect,
    F: Fn(&mut S, CH) -> Control<CH::Resume<'a>>,
    FTail: HandlersToEffects<'a, Effs, ITail>,
 {
    type Effects = Coproduct<CH, FTail::Effects>;

    proof fn lemma_effects_arity() {
        FTail::lemma_effects_arity();
    }
}

/// Marks an async handler `AsyncFnMut(CH) -> Control<..>`. The async closure
/// traits are no bounds of this library's checked code, so no
/// `HandlersToEffects` impl of it reads this marker; async handlers are
/// attached one at a time with `Program::handle`.
pub struct AsyncHandler;

/// Marks an async stateful handler `AsyncFn(&mut S, CH) -> Control<..>`; as
/// for `AsyncHandler`, no `HandlersToEffects` impl of this library reads it.
pub struct AsyncStatefulHandler<S> {
    _marker: core::marker::PhantomData<S>,
}

/// Embed a coproduct of a sub-program's effects into the larger coproduct of
/// the outer program's effects: the sub-effect at position `j` goes to position
/// `Indices::index_at(j)` of `OuterEffs`, unchanged.
pub trait EmbedEffect<OuterEffs: CoprodSpec, Indices: IndexList>: CoprodSpec {
    spec fn spec_embed(self) -> OuterEffs;

    /// The embedded effect sits at the outer position that `Indices` assigns.
    proof fn lemma_embed(self)
        ensures
            self.valid() ==> self.tag() < Indices::count() && self.spec_embed().valid()
                && self.spec_embed().tag() == Indices::index_at(self.tag()),
    ;

    fn embed(self) -> (out: OuterEffs)
        requires
            self.valid(),
        ensures
            out == self.spec_embed(),
    ;
}

impl<OuterEffs: CoprodSpec> EmbedEffect<OuterEffs, HNil> for CNil {
    open spec fn spec_embed(self) -> OuterEffs {
        vstd::pervasive::arbitrary()
    }

    proof fn lemma_embed(self) {
    }

    fn embed(self) -> (out: OuterEffs) {
        vstd::pervasive::unreached()
    }
}

impl<OuterEffs, E, Tail, OuterIdx: IndexSpec, TailIndices: IndexList> EmbedEffect<
    OuterEffs,
    HCons<OuterIdx, TailIndices>,
> for Coproduct<E, Tail> where
    OuterEffs: CoprodInjector<E, OuterIdx>,
    Tail: EmbedEffect<OuterEffs, TailIndices>,
 {
    open spec fn spec_embed(self) -> OuterEffs {
        match self {
            Coproduct::Inl(effect) => OuterEffs::spec_inject(effect),
            Coproduct::Inr(tail) => tail.spec_embed(),
        }
    }

    proof fn lemma_embed(self) {
        match self {
            Coproduct::Inl(effect) => {
                OuterEffs::lemma_inject(effect);
            },
            Coproduct::Inr(tail) => {
                tail.lemma_embed();
            },
        }
    }

    fn embed(self) -> (out: OuterEffs) {
        match self {
            Coproduct::Inl(effect) => OuterEffs::inject(effect),
            Coproduct::Inr(tail) => tail.embed(),
        }
    }
}

/// Project a resume value of the outer program back to the resume coproduct of
/// a sub-program: the outer resume at position `p` becomes the sub-resume at
/// the first position `j` with `Indices::index_at(j) == p`.
pub trait ProjectResume<'a, SubEffs: MapResume, Indices: IndexList>: CoprodSpec {
    /// Some sub-effect position maps to the position of this resume value.
    spec fn projectable(self) -> bool;

    spec fn spec_project(self) -> SubEffs::Output<'a>;

    /// A resume value can be projected exactly when its position is assigned to
    /// some sub-effect, and it lands at the first such sub-position.
    proof fn lemma_project(self)
        ensures
            self.projectable() <==> (self.valid() && Indices::find(self.tag()) is Some),
            self.projectable() ==> self.spec_project().valid() && Indices::find(self.tag())
                == Some(self.spec_project().tag()),
    ;

    fn project(self) -> (out: SubEffs::Output<'a>)
        requires
            self.projectable(),
        ensures
            out == self.spec_project(),
    ;

    /// The projection when the resume value can be projected, and `None`
    /// when no sub-effect position maps to its position.
    fn try_project(self) -> (out: Option<SubEffs::Output<'a>>)
        ensures
            self.projectable() ==> out == Some(self.spec_project()),
            !self.projectable() ==> out is None,
    ;
}

impl<'a, OuterResumes: CoprodSpec> ProjectResume<'a, CNil, HNil> for OuterResumes {
    open spec fn projectable(self) -> bool {
        false
    }

    open spec fn spec_project(self) -> CNil {
        vstd::pervasive::arbitrary()
    }

    proof fn lemma_project(self) {
    }

    fn project(self) -> (out: CNil) {
        vstd::pervasive::unreached()
    }

    fn try_project(self) -> (out: Option<CNil>) {
        None
    }
}

impl<'a, OuterResumes, E, SubTail, OuterIdx: IndexSpec, TailIndices: IndexList> ProjectResume<
    'a,
    Coproduct<E, SubTail>,
    HCons<OuterIdx, TailIndices>,
> for OuterResumes where
    E: Effect,
    SubTail: MapResume,
    OuterResumes: CoprodAt<E::Resume<'a>, OuterIdx>,
    OuterResumes: ProjectResume<'a, SubTail, TailIndices>,
 {
    open spec fn projectable(self) -> bool {
        match <Self as CoprodAt<E::Resume<'a>, OuterIdx>>::spec_at(self) {
            Ok(_) => true,
            Err(remainder) => <Self as ProjectResume<'a, SubTail, TailIndices>>::projectable(
                remainder,
            ),
        }
    }

    open spec fn spec_project(self) -> Coproduct<E::Resume<'a>, SubTail::Output<'a>> {
        match <Self as CoprodAt<E::Resume<'a>, OuterIdx>>::spec_at(self) {
            Ok(resume) => Coproduct::Inl(resume),
            Err(remainder) => Coproduct::Inr(
                <Self as ProjectResume<'a, SubTail, TailIndices>>::spec_project(remainder),
            ),
        }
    }

    proof fn lemma_project(self) {
        <Self as CoprodAt<E::Resume<'a>, OuterIdx>>::lemma_at(self);
        <Self as ProjectResume<'a, SubTail, TailIndices>>::lemma_project(self);
    }

    fn project(self) -> (out: Coproduct<E::Resume<'a>, SubTail::Output<'a>>) {
        match <Self as CoprodAt<E::Resume<'a>, OuterIdx>>::at(self) {
            Ok(resume) => Coproduct::Inl(resume),
            Err(remainder) => Coproduct::Inr(
                <Self as ProjectResume<'a, SubTail, TailIndices>>::project(remainder),
            ),
        }
    }

    fn try_project(self) -> (out: Option<Coproduct<E::Resume<'a>, SubTail::Output<'a>>>) {
        match <Self as CoprodAt<E::Resume<'a>, OuterIdx>>::at(self) {
            Ok(resume) => Some(Coproduct::Inl(resume)),
            Err(remainder) => match <Self as ProjectResume<'a, SubTail, TailIndices>>::try_project(
                remainder,
            ) {
                Some(sub) => Some(Coproduct::Inr(sub)),
                None => None,
            },
        }
    }
}

/// Nested sub-programs: an effect forwarded from a sub-program to a middle
/// program and on to the outer one arrives at the outer position that the two
/// index lists compose to.
pub proof fn law_nested_embed<SubEffs, MidEffs, OuterEffs, SubIndices, MidIndices>(effect: SubEffs) where
    SubEffs: EmbedEffect<MidEffs, SubIndices>,
    MidEffs: EmbedEffect<OuterEffs, MidIndices>,
    OuterEffs: CoprodSpec,
    SubIndices: IndexList,
    MidIndices: IndexList,

    requires
        effect.valid(),
    ensures
        effect.spec_embed().spec_embed().valid(),
        effect.spec_embed().spec_embed().tag() == MidIndices::index_at(
            SubIndices::index_at(effect.tag()),
        ),
{
    effect.lemma_embed();
    effect.spec_embed().lemma_embed();
}

/// Forwarding round trip of `Yielder::invoke`: a sub-program's effect is
/// embedded into the outer effects; when the outer handler resumes at the same
/// outer position, projecting the resume gives a sub-resume at a sub-position
/// that maps to that same outer position, at or before the effect's own
/// position, and exactly at it when no two sub-positions share an outer index.
pub proof fn law_forwarded_resume_returns<'a, SubEffs, OuterEffs, OuterResumes, Indices>(
    effect: SubEffs,
    resume: OuterResumes,
) where
    SubEffs: MapResume + EmbedEffect<OuterEffs, Indices>,
    OuterEffs: CoprodSpec,
    OuterResumes: ProjectResume<'a, SubEffs, Indices>,
    Indices: IndexList,

    requires
        effect.valid(),
        resume.valid(),
        resume.tag() == effect.spec_embed().tag(),
    ensures
        resume.projectable(),
        resume.spec_project().valid(),
        Indices::index_at(resume.spec_project().tag()) == Indices::index_at(effect.tag()),
        resume.spec_project().tag() <= effect.tag(),
        (forall|i: nat, j: nat|
            i < j < Indices::count() ==> Indices::index_at(i) != Indices::index_at(j))
            ==> resume.spec_project().tag() == effect.tag(),
{
    effect.lemma_embed();
    resume.lemma_project();
    let p = resume.tag();
    Indices::lemma_find(p);
    if Indices::find(p) is None {
        assert(Indices::index_at(effect.tag()) != p);
    }
    let j = Indices::find(p).unwrap();
    if j > effect.tag() {
        assert(Indices::index_at(effect.tag()) != p);
    }
}

/// Handlers may be attached in any order: whether an effect of type `CH` is
/// accepted, and how it is answered, depend only on the handler that is found
/// for `CH`, not on where it sits in the list. Two handler lists that hold the
/// same handler for `CH`, at whatever positions, dispatch `CH` alike.
pub proof fn law_handler_order<'a, Effs, CH, I, P1, P2, H1, H2>(
    h1: H1,
    h2: H2,
    effect: CH,
    out: CoControl<'a, Effs>,
) where
    Effs: MapResume + InjectResume<'a, CH, I>,
    Effs::Output<'a>: CoprodInjector<CH::Resume<'a>, I>,
    CH: Effect,
    I: IndexSpec,
    H1: FindHandler<'a, Effs, CH, I, P1>,
    H2: FindHandler<'a, Effs, CH, I, P2, Found = H1::Found>,

    requires
        h1.found() == h2.found(),
    ensures
        h1.handler_ready(effect) == h2.handler_ready(effect),
        h1.handled(effect, out) == h2.handled(effect, out),
{
    h1.lemma_found(effect, out);
    h2.lemma_found(effect, out);
}

/// Projection gives back the value the outer handler resumed with: a resume
/// value `r` of the effect `E`, put at `E`'s outer index `OIdx`, projects to
/// the sub-resume coproduct holding the same `r` at `E`'s sub-index `SIdx`,
/// where `SIdx` is the first sub-position that `Indices` maps to `OIdx`.
pub trait ProjectInjected<'a, SubEffs: MapResume, Indices: IndexList, E: Effect, OIdx: IndexSpec, SIdx: IndexSpec>:
    ProjectResume<'a, SubEffs, Indices> + CoprodInjector<E::Resume<'a>, OIdx> where
    SubEffs::Output<'a>: CoprodInjector<E::Resume<'a>, SIdx>,
 {
    proof fn lemma_project_injected(r: E::Resume<'a>)
        requires
            Indices::find(OIdx::pos()) == Some(SIdx::pos()),
        ensures
            <Self as ProjectResume<'a, SubEffs, Indices>>::projectable(
                <Self as CoprodInjector<E::Resume<'a>, OIdx>>::spec_inject(r),
            ),
            <Self as ProjectResume<'a, SubEffs, Indices>>::spec_project(
                <Self as CoprodInjector<E::Resume<'a>, OIdx>>::spec_inject(r),
            ) == <SubEffs::Output<'a> as CoprodInjector<E::Resume<'a>, SIdx>>::spec_inject(r),
    ;
}

impl<'a, OuterResumes, E, SubTail, OIdx: IndexSpec, TailIndices: IndexList> ProjectInjected<
    'a,
    Coproduct<E, SubTail>,
    HCons<OIdx, TailIndices>,
    E,
    OIdx,
    Here,
> for OuterResumes where
    E: Effect,
    SubTail: MapResume,
    OuterResumes: CoprodInjector<E::Resume<'a>, OIdx>,
    OuterResumes: ProjectResume<'a, SubTail, TailIndices>,
 {
    proof fn lemma_project_injected(r: E::Resume<'a>) {
        <OuterResumes as CoprodInjector<E::Resume<'a>, OIdx>>::lemma_inject(r);
    }
}

impl<'a, OuterResumes, E, H, SubTail, OIdx: IndexSpec, HIdx: IndexSpec, TailIndices: IndexList, SI: IndexSpec> ProjectInjected<
    'a,
    Coproduct<H, SubTail>,
    HCons<HIdx, TailIndices>,
    E,
    OIdx,
    There<SI>,
> for OuterResumes where
    E: Effect,
    H: Effect,
    SubTail: MapResume,
    SubTail::Output<'a>: CoprodInjector<E::Resume<'a>, SI>,
    OuterResumes: CoprodAt<H::Resume<'a>, HIdx>,
    OuterResumes: ProjectInjected<'a, SubTail, TailIndices, E, OIdx, SI>,
 {
    proof fn lemma_project_injected(r: E::Resume<'a>) {
        let o = <OuterResumes as CoprodInjector<E::Resume<'a>, OIdx>>::spec_inject(r);
        <OuterResumes as CoprodInjector<E::Resume<'a>, OIdx>>::lemma_inject(r);
        <OuterResumes as CoprodAt<H::Resume<'a>, HIdx>>::lemma_at(o);
        TailIndices::lemma_find(OIdx::pos());
        assert(HIdx::pos() != OIdx::pos());
        assert(TailIndices::find(OIdx::pos()) == Some(SI::pos()));
        <OuterResumes as ProjectInjected<'a, SubTail, TailIndices, E, OIdx, SI>>::lemma_project_injected(r);
    }
}

/// The value half of the forwarding round trip of `Yielder::invoke`: when the
/// outer handler answers a forwarded effect `E` with `r` at `E`'s outer index,
/// the sub-program is resumed with that same `r`, at the sub-position of `E`
/// (the first one that maps to that outer index).
pub proof fn law_forwarded_resume_value<'a, SubEffs, OuterResumes, Indices, E, OIdx, SIdx>(
    r: E::Resume<'a>,
) where
    SubEffs: MapResume,
    SubEffs::Output<'a>: CoprodInjector<E::Resume<'a>, SIdx>,
    Indices: IndexList,
    E: Effect,
    OIdx: IndexSpec,
    SIdx: IndexSpec,
    OuterResumes: ProjectInjected<'a, SubEffs, Indices, E, OIdx, SIdx>,

    requires
        Indices::find(OIdx::pos()) == Some(SIdx::pos()),
    ensures
        OuterResumes::spec_inject(r).projectable(),
        OuterResumes::spec_inject(r).spec_project() == <SubEffs::Output<
            'a,
        > as CoprodInjector<E::Resume<'a>, SIdx>>::spec_inject(r),
{
    OuterResumes::lemma_project_injected(r);
}

/// Dispatch through two handler lists agrees when, for every effect type of
/// the set, the two lists hold the same handler for it, at whatever
/// positions: handlers attached in any order give the same answers.
pub trait SameDispatch<'a, Effs: MapResume, H1, I1, H2, I2>: HandleMut<'a, Effs, H1, I1> + HandleMut<
    'a,
    Effs,
    H2,
    I2,
> {
    /// For each effect type of `Self`, the handler found in `h1` is the one
    /// found in `h2`.
    spec fn same_handlers(h1: H1, h2: H2) -> bool;

    proof fn lemma_same_dispatch(self, h1: H1, h2: H2, out: CoControl<'a, Effs>)
        requires
            Self::same_handlers(h1, h2),
        ensures
            <Self as HandleMut<'a, Effs, H1, I1>>::dispatch_ready(self, h1)
                == <Self as HandleMut<'a, Effs, H2, I2>>::dispatch_ready(self, h2),
            <Self as HandleMut<'a, Effs, H1, I1>>::dispatched(self, h1, out)
                == <Self as HandleMut<'a, Effs, H2, I2>>::dispatched(self, h2, out),
            <Self as HandleMut<'a, Effs, H1, I1>>::resume_pos(self)
                == <Self as HandleMut<'a, Effs, H2, I2>>::resume_pos(self),
    ;
}

impl<'a, Effs: MapResume, H1, H2> SameDispatch<'a, Effs, H1, HNil, H2, HNil> for CNil {
    open spec fn same_handlers(h1: H1, h2: H2) -> bool {
        true
    }

    proof fn lemma_same_dispatch(self, h1: H1, h2: H2, out: CoControl<'a, Effs>) {
    }
}

impl<'a, Effs, CH, CTail, H1, H2, InjectIdx: IndexSpec, F1, F2, IT1, IT2> SameDispatch<
    'a,
    Effs,
    H1,
    HCons<(InjectIdx, F1), IT1>,
    H2,
    HCons<(InjectIdx, F2), IT2>,
> for Coproduct<CH, CTail> where
    Effs: MapResume + InjectResume<'a, CH, InjectIdx>,
    Effs::Output<'a>: CoprodInjector<CH::Resume<'a>, InjectIdx>,
    CH: Effect,
    H1: FindHandler<'a, Effs, CH, InjectIdx, F1>,
    H2: FindHandler<'a, Effs, CH, InjectIdx, F2, Found = <H1 as FindHandler<
        'a,
        Effs,
        CH,
        InjectIdx,
        F1,
    >>::Found>,
    CTail: SameDispatch<'a, Effs, H1, IT1, H2, IT2>,
 {
    open spec fn same_handlers(h1: H1, h2: H2) -> bool {
        &&& h1.found() == h2.found()
        &&& CTail::same_handlers(h1, h2)
    }

    proof fn lemma_same_dispatch(self, h1: H1, h2: H2, out: CoControl<'a, Effs>) {
        match self {
            Coproduct::Inl(head) => {
                law_handler_order::<'a, Effs, CH, InjectIdx, F1, F2, H1, H2>(h1, h2, head, out);
            },
            Coproduct::Inr(rest) => {
                rest.lemma_same_dispatch(h1, h2, out);
            },
        }
    }
}

/// Handlers attached in any order dispatch alike: for every effect of the set,
/// two handler lists that hold the same handler for each effect type accept
/// the effect alike, answer it alike, and put a resume value at the same
/// position. A runner step, whose result is fixed by the dispatch, is then the
/// same with either list.
pub proof fn law_dispatch_any_order<'a, Effs, H1, I1, H2, I2>(
    effect: Effs,
    h1: H1,
    h2: H2,
    out: CoControl<'a, Effs>,
) where
    Effs: MapResume + SameDispatch<'a, Effs, H1, I1, H2, I2>,

    requires
        <Effs as SameDispatch<'a, Effs, H1, I1, H2, I2>>::same_handlers(h1, h2),
    ensures
        <Effs as HandleMut<'a, Effs, H1, I1>>::dispatch_ready(effect, h1)
            == <Effs as HandleMut<'a, Effs, H2, I2>>::dispatch_ready(effect, h2),
        <Effs as HandleMut<'a, Effs, H1, I1>>::dispatched(effect, h1, out)
            == <Effs as HandleMut<'a, Effs, H2, I2>>::dispatched(effect, h2, out),
{
    effect.lemma_same_dispatch(h1, h2, out);
}

} // verus!
