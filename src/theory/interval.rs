//! An interval is the distance between two notes, as one of the equal-tempered
//! interval classes.

use crate::theory::semitone::Semitones;
use std::ops::{Add, Sub};
use vstd::prelude::*;

verus! {

/// The twelve interval classes from unison to major seventh, and the octave.
#[derive(Debug, Clone, Copy, PartialEq, Eq, Structural, PartialOrd)]
pub enum Interval {
    Unison,
    Min2,
    Maj2,
    Min3,
    Maj3,
    Perfect4,
    Tritone,
    Perfect5,
    Min6,
    Maj6,
    Min7,
    Maj7,
    Octave,
}

impl Interval {
    /// How many semitones the interval spans: 0 for unison up to 12 for the octave.
    pub open spec fn semitones(self) -> int {
        match self {
            Interval::Unison => 0,
            Interval::Min2 => 1,
            Interval::Maj2 => 2,
            Interval::Min3 => 3,
            Interval::Maj3 => 4,
            Interval::Perfect4 => 5,
            Interval::Tritone => 6,
            Interval::Perfect5 => 7,
            Interval::Min6 => 8,
            Interval::Maj6 => 9,
            Interval::Min7 => 10,
            Interval::Maj7 => 11,
            Interval::Octave => 12,
        }
    }

    /// The interval class of a semitone count, reduced modulo the octave.
    /// The result is never `Octave`: twelve semitones reduce to `Unison`.
    pub open spec fn from_semitones(n: int) -> Interval {
        let m = n % 12;
        if m == 0 {
            Interval::Unison
        } else if m == 1 {
            Interval::Min2
        } else if m == 2 {
            Interval::Maj2
        } else if m == 3 {
            Interval::Min3
        } else if m == 4 {
            Interval::Maj3
        } else if m == 5 {
            Interval::Perfect4
        } else if m == 6 {
            Interval::Tritone
        } else if m == 7 {
            Interval::Perfect5
        } else if m == 8 {
            Interval::Min6
        } else if m == 9 {
            Interval::Maj6
        } else if m == 10 {
            Interval::Min7
        } else {
            Interval::Maj7
        }
    }

    /// Interval addition, modulo the octave.
    pub open spec fn plus(self, rhs: Interval) -> Interval {
        Interval::from_semitones(self.semitones() + rhs.semitones())
    }

    /// Interval subtraction, modulo the octave.
    pub open spec fn minus(self, rhs: Interval) -> Interval {
        Interval::from_semitones(self.semitones() - rhs.semitones())
    }

    /// The span in semitones as a machine integer.
    fn count(self) -> (r: i8)
        ensures
            r == self.semitones(),
    {
        match self {
            Interval::Unison => 0,
            Interval::Min2 => 1,
            Interval::Maj2 => 2,
            Interval::Min3 => 3,
            Interval::Maj3 => 4,
            Interval::Perfect4 => 5,
            Interval::Tritone => 6,
            Interval::Perfect5 => 7,
            Interval::Min6 => 8,
            Interval::Maj6 => 9,
            Interval::Min7 => 10,
            Interval::Maj7 => 11,
            Interval::Octave => 12,
        }
    }
}

/// The interval reached by stacking the first `k` steps of `steps`, starting
/// from unison and adding modulo the octave.
pub open spec fn running_total(steps: Seq<Interval>, k: nat) -> Interval
    decreases k,
{
    if k == 0 {
        Interval::Unison
    } else {
        running_total(steps, (k - 1) as nat).plus(steps[k - 1])
    }
}

/// The semitones spanned by the first `k` steps of `steps`, without reduction.
pub open spec fn span(steps: Seq<Interval>, k: nat) -> int
    decreases k,
{
    if k == 0 {
        0
    } else {
        span(steps, (k - 1) as nat) + steps[k - 1].semitones()
    }
}

/// Stacking steps modulo the octave lands on the class of their total span.
pub proof fn lemma_running_total_span(steps: Seq<Interval>, k: nat)
    ensures
        running_total(steps, k) == Interval::from_semitones(span(steps, k)),
    decreases k,
{
    if k > 0 {
        lemma_running_total_span(steps, (k - 1) as nat);
        let prev = span(steps, (k - 1) as nat);
        let step = steps[k - 1].semitones();
        vstd::arithmetic::div_mod::lemma_add_mod_noop_right(step, prev, 12);
        assert(Interval::from_semitones(prev).semitones() == prev % 12);
    }
}

impl From<Semitones> for Interval {
    fn from(s: Semitones) -> (r: Interval) {
        let n = s.0 as i16;
        // Bring negative counts up by a whole number of octaves first.
        let m: i16 = if n >= 0 {
            n % 12
        } else {
            (n + 132) % 12
        };
        assert(m == n % 12) by {
            assert(n + 132 == n + 11 * 12);
        }
        if m == 0 {
            Interval::Unison
        } else if m == 1 {
            Interval::Min2
        } else if m == 2 {
            Interval::Maj2
        } else if m == 3 {
            Interval::Min3
        } else if m == 4 {
            Interval::Maj3
        } else if m == 5 {
            Interval::Perfect4
        } else if m == 6 {
            Interval::Tritone
        } else if m == 7 {
            Interval::Perfect5
        } else if m == 8 {
            Interval::Min6
        } else if m == 9 {
            Interval::Maj6
        } else if m == 10 {
            Interval::Min7
        } else {
            Interval::Maj7
        }
    }
}

impl vstd::std_specs::convert::FromSpecImpl<Semitones> for Interval {
    open spec fn obeys_from_spec() -> bool {
        true
    }

    open spec fn from_spec(s: Semitones) -> Interval {
        Interval::from_semitones(s@)
    }
}

impl From<Interval> for Semitones {
    fn from(i: Interval) -> (r: Semitones) {
        Semitones(i.count())
    }
}

impl vstd::std_specs::convert::FromSpecImpl<Interval> for Semitones {
    open spec fn obeys_from_spec() -> bool {
        true
    }

    open spec fn from_spec(i: Interval) -> Semitones {
        Semitones(i.semitones() as i8)
    }
}

impl From<Interval> for i8 {
    fn from(i: Interval) -> (r: i8) {
        Semitones::from(i).0
    }
}

impl vstd::std_specs::convert::FromSpecImpl<Interval> for i8 {
    open spec fn obeys_from_spec() -> bool {
        true
    }

    open spec fn from_spec(i: Interval) -> i8 {
        i.semitones() as i8
    }
}

impl Add for Interval {
    type Output = Interval;

    fn add(self, rhs: Interval) -> (r: Interval) {
        Interval::from(Semitones::from(i8::from(self) + i8::from(rhs) % 12))
    }
}

impl vstd::std_specs::ops::AddSpecImpl for Interval {
    open spec fn obeys_add_spec() -> bool {
        true
    }

    open spec fn add_req(self, rhs: Interval) -> bool {
        true
    }

    open spec fn add_spec(self, rhs: Interval) -> Interval {
        self.plus(rhs)
    }
}

impl Sub for Interval {
    type Output = Interval;

    fn sub(self, rhs: Interval) -> (r: Interval) {
        let mut delta = i8::from(self) - i8::from(rhs);
        if delta < 0 {
            delta = delta + 12;
        }
        Interval::from(Semitones::from(delta))
    }
}

impl vstd::std_specs::ops::SubSpecImpl for Interval {
    open spec fn obeys_sub_spec() -> bool {
        true
    }

    open spec fn sub_req(self, rhs: Interval) -> bool {
        true
    }

    open spec fn sub_spec(self, rhs: Interval) -> Interval {
        self.minus(rhs)
    }
}

/// Round trip: every semitone count from 0 to 11 names an interval whose
/// span is that count again.
pub proof fn lemma_semitones_round_trip(s: i8)
    requires
        0 <= s <= 11,
    ensures
        Interval::from_semitones(s as int).semitones() == s,
{
}

/// Interval arithmetic is the group of integers modulo twelve: subtracting what
/// was added gives the interval back, and unison is the identity. The octave is
/// the one exception, since it reduces to unison.
pub proof fn lemma_add_sub_cancel(a: Interval, b: Interval)
    requires
        a != Interval::Octave,
    ensures
        a.plus(b).minus(b) == a,
        a.plus(Interval::Unison) == a,
{
}

} // verus!
