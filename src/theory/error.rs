//! The one error of the theory types: text that does not name what was asked for.

use vstd::prelude::*;

verus! {

/// What part of the input could not be read.
#[derive(Debug, Clone, Copy, PartialEq, Eq, Structural)]
pub enum ErrorKind {
    /// The note letter is missing, is not one of A to G, or is followed by
    /// more than one accidental.
    InvalidNote,
    /// The character after the letter is neither a sharp nor a flat.
    InvalidAccidental,
    /// The octave is not a single digit from 0 to 8.
    InvalidOctave,
    /// The scale name is not one that is known.
    UnknownScale,
}

/// Invalid input, with the text that was refused.
#[derive(Debug, Clone, PartialEq, Eq)]
pub struct ParseError {
    pub kind: ErrorKind,
    pub input: String,
}

impl View for ParseError {
    type V = (ErrorKind, Seq<char>);

    open spec fn view(&self) -> (ErrorKind, Seq<char>) {
        (self.kind, self.input@)
    }
}

impl ParseError {
    /// An error of the given kind that carries a copy of the refused text.
    pub fn new(kind: ErrorKind, input: &str) -> (r: ParseError)
        ensures
            r@ == (kind, input@),
    {
        ParseError { kind, input: input.to_owned() }
    }
}

/// A parse result with the error replaced by its view.
pub open spec fn outcome<T>(r: Result<T, ParseError>) -> Result<T, (ErrorKind, Seq<char>)> {
    match r {
        Ok(v) => Ok(v),
        Err(e) => Err(e@),
    }
}

} // verus!
