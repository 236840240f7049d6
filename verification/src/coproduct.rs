//! Open sums ("coproducts") of types, and type-level indices into them.
//!
//! A coproduct `Coproduct<A, Coproduct<B, Coproduct<C, CNil>>>` holds exactly one
//! value, of type `A`, `B` or `C`. Its *tag* is the position of the variant that is
//! present. Positions are named at the type level by `Here` (position 0) and
//! `There<I>` (one past the position of `I`).
use vstd::prelude::*;

use crate::hlist::{HCons, HNil};

verus! {

/// A value of type `H` (left injection) or a value of the coproduct `T` (right injection).
#[derive(Debug, Clone, Copy, PartialEq, Eq, Structural)]
pub enum Coproduct<H, T> {
    Inl(H),
    Inr(T),
}

/// The empty coproduct. No value of it is ever built by the library, and
/// none can be built outside of it; `CoprodSpec::valid` is false on it.
#[derive(Debug, Clone, Copy, PartialEq, Eq, Structural)]
pub struct CNil {
    _unconstructible: bool,
}

/// Type-level index of the head position.
pub struct Here;

/// Type-level index of the position one past `I`.
pub struct There<I> {
    _marker: core::marker::PhantomData<I>,
}

/// The number that a type-level index stands for.
pub trait IndexSpec {
    spec fn pos() -> nat;
}

impl IndexSpec for Here {
    open spec fn pos() -> nat {
        0
    }
}

impl<I: IndexSpec> IndexSpec for There<I> {
    open spec fn pos() -> nat {
        I::pos() + 1
    }
}

/// The mathematical reading of a coproduct value: which position it occupies
/// (`tag`), how many positions its type has (`arity`), and whether it is a real
/// value of the sum (`valid`; false on the empty coproduct).
pub trait CoprodSpec: Sized {
    spec fn tag(&self) -> nat;

    spec fn arity() -> nat;

    spec fn valid(&self) -> bool;

    /// A valid value sits at a position that the type has.
    proof fn lemma_valid_tag(&self)
        ensures
            self.valid() ==> self.tag() < Self::arity(),
    ;
}

impl CoprodSpec for CNil {
    open spec fn tag(&self) -> nat {
        0
    }

    open spec fn arity() -> nat {
        0
    }

    open spec fn valid(&self) -> bool {
        false
    }

    proof fn lemma_valid_tag(&self) {
    }
}

impl<H, T: CoprodSpec> CoprodSpec for Coproduct<H, T> {
    open spec fn tag(&self) -> nat {
        match self {
            Coproduct::Inl(_) => 0,
            Coproduct::Inr(t) => t.tag() + 1,
        }
    }

    open spec fn arity() -> nat {
        T::arity() + 1
    }

    open spec fn valid(&self) -> bool {
        match self {
            Coproduct::Inl(_) => true,
            Coproduct::Inr(t) => t.valid(),
        }
    }

    proof fn lemma_valid_tag(&self) {
        match self {
            Coproduct::Inl(_) => {},
            Coproduct::Inr(t) => {
                t.lemma_valid_tag();
            },
        }
    }
}

/// Extract the value at index `Idx` from a coproduct, if that is where it is.
pub trait CoprodAt<T, Idx: IndexSpec>: CoprodSpec {
    /// `Ok(v)` when the value sits at position `Idx` and is `v`; `Err(self)` otherwise.
    spec fn spec_at(self) -> Result<T, Self>;

    /// The extraction succeeds exactly at the position that `Idx` names, and a
    /// failed extraction hands the value back unchanged.
    proof fn lemma_at(self)
        ensures
            self.spec_at() is Ok <==> (self.valid() && self.tag() == Idx::pos()),
            self.spec_at() matches Err(s) ==> s == self,
    ;

    fn at(self) -> (r: Result<T, Self>)
        ensures
            r == self.spec_at(),
    ;
}

impl<T, Tail: CoprodSpec> CoprodAt<T, Here> for Coproduct<T, Tail> {
    open spec fn spec_at(self) -> Result<T, Self> {
        match self {
            Coproduct::Inl(v) => Ok(v),
            Coproduct::Inr(_) => Err(self),
        }
    }

    proof fn lemma_at(self) {
    }

    fn at(self) -> (r: Result<T, Self>) {
        match self {
            Coproduct::Inl(val) => Ok(val),
            Coproduct::Inr(_) => Err(self),
        }
    }
}

impl<Head, T, TailIdx: IndexSpec, Tail: CoprodAt<T, TailIdx>> CoprodAt<T, There<TailIdx>> for Coproduct<
    Head,
    Tail,
> {
    open spec fn spec_at(self) -> Result<T, Self> {
        match self {
            Coproduct::Inl(_) => Err(self),
            Coproduct::Inr(tail) => match tail.spec_at() {
                Ok(v) => Ok(v),
                Err(t) => Err(Coproduct::Inr(t)),
            },
        }
    }

    proof fn lemma_at(self) {
        match self {
            Coproduct::Inl(_) => {},
            Coproduct::Inr(tail) => {
                tail.lemma_at();
            },
        }
    }

    fn at(self) -> (r: Result<T, Self>) {
        match self {
            Coproduct::Inl(_) => Err(self),
            Coproduct::Inr(tail) => match tail.at() {
                Ok(val) => Ok(val),
                Err(tail) => Err(Coproduct::Inr(tail)),
            },
        }
    }
}

/// Build a coproduct value at index `Idx`.
pub trait CoprodInjector<T, Idx: IndexSpec>: CoprodAt<T, Idx> {
    spec fn spec_inject(v: T) -> Self;

    /// An injected value is found again at the same index.
    proof fn lemma_inject(v: T)
        ensures
            Self::spec_inject(v).spec_at() == Ok::<T, Self>(v),
            Self::spec_inject(v).valid(),
            Self::spec_inject(v).tag() == Idx::pos(),
    ;

    fn inject(v: T) -> (r: Self)
        ensures
            r == Self::spec_inject(v),
    ;
}

impl<T, Tail: CoprodSpec> CoprodInjector<T, Here> for Coproduct<T, Tail> {
    open spec fn spec_inject(v: T) -> Self {
        Coproduct::Inl(v)
    }

    proof fn lemma_inject(v: T) {
    }

    fn inject(v: T) -> (r: Self) {
        Coproduct::Inl(v)
    }
}

impl<Head, T, TailIdx: IndexSpec, Tail: CoprodInjector<T, TailIdx>> CoprodInjector<
    T,
    There<TailIdx>,
> for Coproduct<Head, Tail> {
    open spec fn spec_inject(v: T) -> Self {
        Coproduct::Inr(Tail::spec_inject(v))
    }

    proof fn lemma_inject(v: T) {
        Tail::lemma_inject(v);
    }

    fn inject(v: T) -> (r: Self) {
        Coproduct::Inr(Tail::inject(v))
    }
}

/// Take the value at index `Idx` out of a coproduct, or else get the coproduct
/// of the other positions (`Remainder`).
pub trait CoprodUninjector<T, Idx: IndexSpec>: CoprodAt<T, Idx> {
    type Remainder: CoprodSpec;

    spec fn spec_uninject(self) -> Result<T, Self::Remainder>;

    /// Uninjection finds the same value as `at`; on failure the value keeps its
    /// place among the remaining positions, which close up over `Idx`.
    /// Removing one position leaves one position less.
    proof fn lemma_remainder_arity()
        ensures
            Self::arity() >= 1,
            Self::Remainder::arity() + 1 == Self::arity(),
    ;

    proof fn lemma_uninject(self)
        ensures
            self.spec_uninject() matches Ok(v) ==> self.spec_at() == Ok::<T, Self>(v),
            self.spec_uninject() is Ok <==> self.spec_at() is Ok,
            self.spec_uninject() matches Err(rem) ==> rem.valid() == self.valid(),
            self.spec_uninject() matches Err(rem) ==> self.tag() < Idx::pos() ==> rem.tag()
                == self.tag(),
            self.spec_uninject() matches Err(rem) ==> self.tag() > Idx::pos() ==> rem.tag() + 1
                == self.tag(),
    ;

    fn uninject(self) -> (r: Result<T, Self::Remainder>)
        ensures
            r == self.spec_uninject(),
    ;
}

impl<T, Tail: CoprodSpec> CoprodUninjector<T, Here> for Coproduct<T, Tail> {
    type Remainder = Tail;

    open spec fn spec_uninject(self) -> Result<T, Tail> {
        match self {
            Coproduct::Inl(v) => Ok(v),
            Coproduct::Inr(t) => Err(t),
        }
    }

    proof fn lemma_remainder_arity() {
    }

    proof fn lemma_uninject(self) {
    }

    fn uninject(self) -> (r: Result<T, Tail>) {
        match self {
            Coproduct::Inl(v) => Ok(v),
            Coproduct::Inr(t) => Err(t),
        }
    }
}

impl<Head, T, TailIdx: IndexSpec, Tail: CoprodUninjector<T, TailIdx>> CoprodUninjector<
    T,
    There<TailIdx>,
> for Coproduct<Head, Tail> {
    type Remainder = Coproduct<Head, Tail::Remainder>;

    open spec fn spec_uninject(self) -> Result<T, Coproduct<Head, Tail::Remainder>> {
        match self {
            Coproduct::Inl(h) => Err(Coproduct::Inl(h)),
            Coproduct::Inr(t) => match t.spec_uninject() {
                Ok(v) => Ok(v),
                Err(r) => Err(Coproduct::Inr(r)),
            },
        }
    }

    proof fn lemma_remainder_arity() {
        Tail::lemma_remainder_arity();
    }

    proof fn lemma_uninject(self) {
        match self {
            Coproduct::Inl(h) => {},
            Coproduct::Inr(t) => {
                t.lemma_uninject();
                t.lemma_at();
            },
        }
    }

    fn uninject(self) -> (r: Result<T, Coproduct<Head, Tail::Remainder>>) {
        match self {
            Coproduct::Inl(h) => Err(Coproduct::Inl(h)),
            Coproduct::Inr(t) => match t.uninject() {
                Ok(v) => Ok(v),
                Err(r) => Err(Coproduct::Inr(r)),
            },
        }
    }
}

/// The coproduct left when the positions of the types in `Targets` are taken
/// out of `Self` (one position per target, found through `Indices`).
pub trait CoproductSubsetter<Targets: CoprodSpec, Indices>: CoprodSpec {
    type Remainder: CoprodSpec;

    /// Each target takes one position away.
    proof fn lemma_remainder_arity()
        ensures
            Self::arity() >= Targets::arity(),
            Self::Remainder::arity() + Targets::arity() == Self::arity(),
    ;
}

impl<Choices: CoprodSpec> CoproductSubsetter<CNil, HNil> for Choices {
    type Remainder = Choices;

    proof fn lemma_remainder_arity() {
    }
}

impl<Choices, THead, TTail: CoprodSpec, NHead: IndexSpec, NTail> CoproductSubsetter<
    Coproduct<THead, TTail>,
    HCons<NHead, NTail>,
> for Choices where
    Choices: CoprodUninjector<THead, NHead>,
    Choices::Remainder: CoproductSubsetter<TTail, NTail>,
 {
    type Remainder = <Choices::Remainder as CoproductSubsetter<TTail, NTail>>::Remainder;

    proof fn lemma_remainder_arity() {
        Choices::lemma_remainder_arity();
        <Choices::Remainder as CoproductSubsetter<TTail, NTail>>::lemma_remainder_arity();
    }
}

} // verus!
