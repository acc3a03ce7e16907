//! The one failure that reading a dictionary member can end in.

use vstd::prelude::*;

verus! {

/// The constructs that a dictionary member cannot do without.
#[derive(Clone, Copy, Debug, PartialEq, Eq, Hash)]
pub enum Expected {
    /// The declared type of the member.
    Type,
    /// The name of the member.
    Identifier,
    /// The token that ends the declaration.
    Terminator,
}

/// A construct was expected and not found.
#[derive(Clone, Copy, Debug, PartialEq, Eq, Hash)]
pub struct ParseError<'a> {
    /// The construct that was not found.
    pub expected: Expected,
    /// The cursor at the point of failure: what was left of the text there.
    pub at: &'a str,
}

/// A `ParseError` as a mathematical value.
pub struct Failure {
    /// The construct that was not found.
    pub expected: Expected,
    /// The cursor at the point of failure.
    pub at: Seq<char>,
}

impl<'a> View for ParseError<'a> {
    type V = Failure;

    open spec fn view(&self) -> Failure {
        Failure { expected: self.expected, at: self.at@ }
    }
}

} // verus!
