//! Heterogeneous lists, used for lists of handlers and lists of type-level indices.
use vstd::prelude::*;

use crate::coproduct::IndexSpec;

verus! {

/// A non-empty heterogeneous list: a head and the rest of the list.
pub struct HCons<H, T> {
    pub head: H,
    pub tail: T,
}

/// The empty heterogeneous list.
pub struct HNil;

/// The length of a heterogeneous list, which its type fixes.
pub trait HListSpec {
    spec fn len() -> nat;
}

impl HListSpec for HNil {
    open spec fn len() -> nat {
        0
    }
}

impl<H, T: HListSpec> HListSpec for HCons<H, T> {
    open spec fn len() -> nat {
        T::len() + 1
    }
}

/// Concatenation of two heterogeneous lists: the elements of `self`, then those of `R`.
pub trait Append<R: HListSpec>: HListSpec + Sized {
    type Output: HListSpec;

    spec fn spec_append(self, rhs: R) -> Self::Output;

    /// The concatenation is as long as both lists together.
    proof fn lemma_append_len()
        ensures
            Self::Output::len() == Self::len() + R::len(),
    ;

    fn append(self, rhs: R) -> (out: Self::Output)
        ensures
            out == self.spec_append(rhs),
    ;
}

impl<R: HListSpec> Append<R> for HNil {
    type Output = R;

    open spec fn spec_append(self, rhs: R) -> R {
        rhs
    }

    proof fn lemma_append_len() {
    }

    fn append(self, rhs: R) -> (out: R) {
        rhs
    }
}

impl<H, R: HListSpec, T: Append<R>> Append<R> for HCons<H, T> {
    type Output = HCons<H, T::Output>;

    open spec fn spec_append(self, rhs: R) -> HCons<H, T::Output> {
        HCons { head: self.head, tail: self.tail.spec_append(rhs) }
    }

    proof fn lemma_append_len() {
        T::lemma_append_len();
    }

    fn append(self, rhs: R) -> (out: HCons<H, T::Output>) {
        HCons { head: self.head, tail: self.tail.append(rhs) }
    }
}

/// A list of type-level indices, read as the sequence of numbers they stand for.
pub trait IndexList {
    spec fn index_at(j: nat) -> nat;

    spec fn count() -> nat;

    /// The first position in the list that holds the number `p`, if any.
    spec fn find(p: nat) -> Option<nat>;

    /// `find` returns the first position holding `p`, and nothing when no position does.
    proof fn lemma_find(p: nat)
        ensures
            Self::find(p) matches Some(j) ==> j < Self::count() && Self::index_at(j) == p
                && forall|k: nat| k < j ==> Self::index_at(k) != p,
            Self::find(p) is None ==> forall|k: nat| k < Self::count() ==> Self::index_at(k) != p,
    ;
}

impl IndexList for HNil {
    open spec fn index_at(j: nat) -> nat {
        0
    }

    open spec fn count() -> nat {
        0
    }

    open spec fn find(p: nat) -> Option<nat> {
        None
    }

    proof fn lemma_find(p: nat) {
    }
}

impl<I: IndexSpec, T: IndexList> IndexList for HCons<I, T> {
    open spec fn index_at(j: nat) -> nat {
        if j == 0 {
            I::pos()
        } else {
            T::index_at((j - 1) as nat)
        }
    }

    open spec fn count() -> nat {
        T::count() + 1
    }

    open spec fn find(p: nat) -> Option<nat> {
        if I::pos() == p {
            Some(0)
        } else {
            match T::find(p) {
                Some(j) => Some(j + 1),
                None => None,
            }
        }
    }

    proof fn lemma_find(p: nat) {
        T::lemma_find(p);
        if I::pos() != p {
            assert forall|k: nat| k < Self::count() && Self::find(p) is None implies Self::index_at(k) != p by {
                if k > 0 {
                    assert(Self::index_at(k) == T::index_at((k - 1) as nat));
                }
            }
            if let Some(j) = T::find(p) {
                assert forall|k: nat| k < j + 1 implies Self::index_at(k) != p by {
                    if k > 0 {
                        assert(Self::index_at(k) == T::index_at((k - 1) as nat));
                    }
                }
            }
        }
    }
}

} // verus!
