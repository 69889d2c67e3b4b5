//! A semitone divides an octave into twelve equal parts.

use vstd::prelude::*;

verus! {

/// A signed count of semitones.
#[derive(Debug, Default, Clone, Copy, PartialEq, Eq, Structural)]
pub struct Semitones(pub i8);

impl View for Semitones {
    type V = int;

    open spec fn view(&self) -> int {
        self.0 as int
    }
}

impl From<i8> for Semitones {
    fn from(i: i8) -> (r: Semitones) {
        Semitones(i)
    }
}

impl vstd::std_specs::convert::FromSpecImpl<i8> for Semitones {
    open spec fn obeys_from_spec() -> bool {
        true
    }

    open spec fn from_spec(i: i8) -> Semitones {
        Semitones(i)
    }
}

impl From<Semitones> for i8 {
    fn from(s: Semitones) -> (r: i8) {
        s.0
    }
}

impl vstd::std_specs::convert::FromSpecImpl<Semitones> for i8 {
    open spec fn obeys_from_spec() -> bool {
        true
    }

    open spec fn from_spec(s: Semitones) -> i8 {
        s.0
    }
}

impl Semitones {
    /// The same distance in cents: one hundred cents to the semitone.
    pub fn cents(self) -> (r: i16)
        ensures
            r == 100 * self@,
    {
        100 * (self.0 as i16)
    }
}

} // verus!
