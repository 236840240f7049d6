//! Algebraic effects: computations that yield effects, and handlers that
//! answer them.
//!
//! A computation describes what it needs by yielding effects; handlers, one per
//! effect type, decide how each effect is carried out and either resume the
//! computation with a value or cancel it. This library holds the verified core:
//! the open sums of effects and resume values, the dispatch of an effect to its
//! handler, the steps of the runners, the forwarding of a sub-program's effects,
//! the building of programs, and the decisions of the `#[effect]` and
//! `#[effectful]` attributes.
use vstd::prelude::*;

pub mod attr;
pub mod control;
pub mod coproduct;
pub mod dispatch;
pub mod dyn_dispatch;
pub mod effect;
pub mod hlist;
pub mod lifetimes;
pub mod locality;
pub mod program;
pub mod run;
pub mod unique;

pub use control::{Cancelled, CoControl, Control};
pub use effect::{Effect, Never};
pub use locality::{Local, Locality, Sendable};
pub use program::Program;

verus! {

} // verus!
