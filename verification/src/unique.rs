//! Tokens that tell apart the places in a program where they are made.
use vstd::prelude::*;

verus! {

/// An identifier derived from a type that is unique to one place in a program.
#[derive(Debug)]
pub struct Token(u64);

impl Token {
    /// The token with identifier `id`.
    pub fn new(id: u64) -> (t: Token)
        ensures
            t.id() == id,
    {
        Token(id)
    }

    pub closed spec fn id(&self) -> u64 {
        self.0
    }
}

} // verus!
