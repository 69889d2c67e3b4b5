//! A scale is a series of notes in a single octave, along a given set of intervals.

use crate::theory::error::{outcome, ErrorKind, ParseError};
use crate::theory::interval::{lemma_running_total_span, running_total, span, Interval};
use crate::theory::key::Key;
use crate::theory::note::{Letter, Note};
use crate::theory::piano_key::PianoKey;
use crate::theory::text::{same_text, to_upper, uppercase};
use std::str::FromStr;
use vstd::prelude::*;

verus! {

/// A mode is the degree of the major scale on which a diatonic scale starts.
#[derive(Debug, Clone, Copy, PartialEq, Eq, Structural, PartialOrd)]
pub enum Mode {
    Ionian,
    Dorian,
    Phrygian,
    Lydian,
    Mixolydian,
    Aeolian,
    Locrian,
}

/// The steps of the major scale, from which every mode is a rotation.
pub open spec fn ionian_steps() -> Seq<Interval> {
    seq![
        Interval::Maj2,
        Interval::Maj2,
        Interval::Min2,
        Interval::Maj2,
        Interval::Maj2,
        Interval::Maj2,
        Interval::Min2,
    ]
}

impl Mode {
    /// The degree of the major scale that the mode starts on, from 0.
    pub open spec fn degree(self) -> nat {
        match self {
            Mode::Ionian => 0,
            Mode::Dorian => 1,
            Mode::Phrygian => 2,
            Mode::Lydian => 3,
            Mode::Mixolydian => 4,
            Mode::Aeolian => 5,
            Mode::Locrian => 6,
        }
    }

    fn offset(self) -> (r: usize)
        ensures
            r == self.degree(),
    {
        match self {
            Mode::Ionian => 0,
            Mode::Dorian => 1,
            Mode::Phrygian => 2,
            Mode::Lydian => 3,
            Mode::Mixolydian => 4,
            Mode::Aeolian => 5,
            Mode::Locrian => 6,
        }
    }

    fn base_intervals() -> (r: Vec<Interval>)
        ensures
            r@ == ionian_steps(),
    {
        let r = vec![
            Interval::Maj2,
            Interval::Maj2,
            Interval::Min2,
            Interval::Maj2,
            Interval::Maj2,
            Interval::Maj2,
            Interval::Min2,
        ];
        assert(r@ =~= ionian_steps());
        r
    }
}

/// The note reached from C by `i` steps of a perfect fifth.
pub open spec fn fifths_from_c(i: nat) -> Note
    decreases i,
{
    if i == 0 {
        Note { accidental: None, letter: Letter::C }
    } else {
        fifths_from_c((i - 1) as nat).plus(Interval::Perfect5)
    }
}

/// The number of notes in an octave of a scale.
#[derive(Debug, Clone, Copy, PartialEq, Eq, Structural)]
pub enum Length {
    Tetratonic,
    Heptatonic,
    Dodecatonic,
}

impl Length {
    /// The number of notes.
    pub open spec fn spec_count(self) -> nat {
        match self {
            Length::Tetratonic => 4,
            Length::Heptatonic => 7,
            Length::Dodecatonic => 12,
        }
    }

    /// The number of notes.
    pub fn count(self) -> (r: usize)
        ensures
            r == self.spec_count(),
    {
        match self {
            Length::Tetratonic => 4,
            Length::Heptatonic => 7,
            Length::Dodecatonic => 12,
        }
    }
}

/// The steps of a scale, which together span exactly one octave. The
/// tetratonic scale is the major triad closed by its octave: a major third, a
/// minor third and a perfect fourth (C E G C from C).
#[derive(Debug, Clone, Copy, PartialEq, Eq, Structural)]
pub enum Scale {
    Chromatic,
    Diatonic(Mode),
    Tetratonic,
}

impl Default for Scale {
    fn default() -> (r: Scale)
        ensures
            r == Scale::Diatonic(Mode::Ionian),
    {
        Scale::Diatonic(Mode::Ionian)
    }
}

impl Scale {
    /// The steps between consecutive notes of the scale.
    pub open spec fn intervals(self) -> Seq<Interval> {
        match self {
            Scale::Chromatic => Seq::new(12, |i: int| Interval::Min2),
            Scale::Diatonic(mode) => Seq::new(
                7,
                |i: int| ionian_steps()[(i + mode.degree()) % 7],
            ),
            Scale::Tetratonic => seq![Interval::Maj3, Interval::Min3, Interval::Perfect4],
        }
    }

    /// The scale that an uppercase name stands for.
    pub open spec fn named(name: Seq<char>) -> Option<Scale> {
        if name == "IONIAN"@ || name == "MAJOR"@ {
            Some(Scale::Diatonic(Mode::Ionian))
        } else if name == "DORIAN"@ {
            Some(Scale::Diatonic(Mode::Dorian))
        } else if name == "PHRYGIAN"@ {
            Some(Scale::Diatonic(Mode::Phrygian))
        } else if name == "LYDIAN"@ {
            Some(Scale::Diatonic(Mode::Lydian))
        } else if name == "MIXOLYDIAN"@ {
            Some(Scale::Diatonic(Mode::Mixolydian))
        } else if name == "AEOLIAN"@ || name == "MINOR"@ {
            Some(Scale::Diatonic(Mode::Aeolian))
        } else if name == "LOCRIAN"@ {
            Some(Scale::Diatonic(Mode::Locrian))
        } else if name == "CHROMATIC"@ {
            Some(Scale::Chromatic)
        } else if name == "TETRATONIC"@ {
            Some(Scale::Tetratonic)
        } else {
            None
        }
    }

    /// What reading a scale name gives: names are matched without regard to case.
    pub open spec fn parse_spec(s: Seq<char>) -> Result<Scale, (ErrorKind, Seq<char>)> {
        match Scale::named(uppercase(s)) {
            Some(scale) => Ok(scale),
            None => Err((ErrorKind::UnknownScale, s)),
        }
    }

    /// The human-readable label of the scale.
    pub open spec fn label(self) -> Seq<char> {
        match self {
            Scale::Chromatic => "chromatic scale"@,
            Scale::Tetratonic => "tetratonic scale"@,
            Scale::Diatonic(Mode::Ionian) => "major scale"@,
            Scale::Diatonic(Mode::Dorian) => "dorian mode"@,
            Scale::Diatonic(Mode::Phrygian) => "phrygian mode"@,
            Scale::Diatonic(Mode::Lydian) => "lydian mode"@,
            Scale::Diatonic(Mode::Mixolydian) => "mixolydian mode"@,
            Scale::Diatonic(Mode::Aeolian) => "minor scale"@,
            Scale::Diatonic(Mode::Locrian) => "locrian mode"@,
        }
    }

    /// Produce the intervals that make up this scale.
    pub fn get_intervals(self) -> (r: Vec<Interval>)
        ensures
            r@ == self.intervals(),
    {
        match self {
            Scale::Chromatic => {
                let n = Length::Dodecatonic.count();
                let mut r: Vec<Interval> = Vec::new();
                let mut i: usize = 0;
                while i < n
                    invariant
                        n == 12,
                        i <= n,
                        r@.len() == i,
                        forall|k: int| 0 <= k < i ==> r@[k] == Interval::Min2,
                    decreases n - i,
                {
                    r.push(Interval::Min2);
                    i += 1;
                }
                assert(r@ =~= self.intervals());
                r
            },
            Scale::Diatonic(mode) => {
                let base = Mode::base_intervals();
                let skip = mode.offset();
                let n = Length::Heptatonic.count();
                let mut r: Vec<Interval> = Vec::new();
                let mut i: usize = 0;
                while i < n
                    invariant
                        n == 7,
                        base@ == ionian_steps(),
                        skip == mode.degree(),
                        i <= n,
                        r@.len() == i,
                        forall|k: int|
                            0 <= k < i ==> r@[k] == ionian_steps()[(k + mode.degree()) % 7],
                    decreases n - i,
                {
                    r.push(base[(i + skip) % 7]);
                    i += 1;
                }
                assert(r@ =~= self.intervals());
                r
            },
            Scale::Tetratonic => {
                let r = vec![Interval::Maj3, Interval::Min3, Interval::Perfect4];
                assert(r@ =~= self.intervals());
                r
            },
        }
    }

    /// Produce one key in the given mode for each member of the circle of
    /// fifths, starting on C4: twelve keys of one octave each.
    pub fn circle_of_fifths(mode: Mode) -> (r: Vec<Key>)
        ensures
            r@.len() == 12,
            forall|i: int|
                0 <= i < 12 ==> #[trigger] r@[i] == (Key {
                    base_note: PianoKey { note: fifths_from_c(i as nat), octave: 4 },
                    octaves: 1,
                    scale: Scale::Diatonic(mode),
                }),
    {
        let mut ret: Vec<Key> = Vec::new();
        let mut current_base = Note::default();
        let n = Length::Dodecatonic.count();
        let mut i: usize = 0;
        while i < n
            invariant
                n == 12,
                i <= n,
                current_base == fifths_from_c(i as nat),
                ret@.len() == i,
                forall|k: int|
                    0 <= k < i ==> #[trigger] ret@[k] == (Key {
                        base_note: PianoKey { note: fifths_from_c(k as nat), octave: 4 },
                        octaves: 1,
                        scale: Scale::Diatonic(mode),
                    }),
            decreases n - i,
        {
            ret.push(Key::new(Scale::Diatonic(mode), PianoKey { note: current_base, octave: 4 }, 1));
            current_base = current_base + Interval::Perfect5;
            i += 1;
        }
        ret
    }

    /// The scale that an already uppercased name stands for, if any.
    pub fn from_upper(name: &str) -> (r: Option<Scale>)
        ensures
            r == Scale::named(name@),
    {
        if same_text(name, "IONIAN") || same_text(name, "MAJOR") {
            Some(Scale::Diatonic(Mode::Ionian))
        } else if same_text(name, "DORIAN") {
            Some(Scale::Diatonic(Mode::Dorian))
        } else if same_text(name, "PHRYGIAN") {
            Some(Scale::Diatonic(Mode::Phrygian))
        } else if same_text(name, "LYDIAN") {
            Some(Scale::Diatonic(Mode::Lydian))
        } else if same_text(name, "MIXOLYDIAN") {
            Some(Scale::Diatonic(Mode::Mixolydian))
        } else if same_text(name, "AEOLIAN") || same_text(name, "MINOR") {
            Some(Scale::Diatonic(Mode::Aeolian))
        } else if same_text(name, "LOCRIAN") {
            Some(Scale::Diatonic(Mode::Locrian))
        } else if same_text(name, "CHROMATIC") {
            Some(Scale::Chromatic)
        } else if same_text(name, "TETRATONIC") {
            Some(Scale::Tetratonic)
        } else {
            None
        }
    }

    /// Read a scale name, in any case: a mode name (`major` and `minor` stand
    /// for Ionian and Aeolian), `chromatic` or `tetratonic`.
    pub fn parse(s: &str) -> (r: Result<Scale, ParseError>)
        ensures
            outcome(r) == Scale::parse_spec(s@),
    {
        let upper = to_upper(s);
        match Scale::from_upper(upper.as_str()) {
            Some(scale) => Ok(scale),
            None => Err(ParseError::new(ErrorKind::UnknownScale, s)),
        }
    }

    /// The human-readable label, such as `major scale` or `dorian mode`.
    pub fn to_string(&self) -> (r: String)
        ensures
            r@ == self.label(),
    {
        let label = match self {
            Scale::Chromatic => "chromatic scale",
            Scale::Tetratonic => "tetratonic scale",
            Scale::Diatonic(Mode::Ionian) => "major scale",
            Scale::Diatonic(Mode::Dorian) => "dorian mode",
            Scale::Diatonic(Mode::Phrygian) => "phrygian mode",
            Scale::Diatonic(Mode::Lydian) => "lydian mode",
            Scale::Diatonic(Mode::Mixolydian) => "mixolydian mode",
            Scale::Diatonic(Mode::Aeolian) => "minor scale",
            Scale::Diatonic(Mode::Locrian) => "locrian mode",
        };
        label.to_owned()
    }
}

impl FromStr for Scale {
    type Err = ParseError;

    fn from_str(s: &str) -> (r: Result<Scale, ParseError>)
        ensures
            outcome(r) == Scale::parse_spec(s@),
    {
        Scale::parse(s)
    }
}

proof fn lemma_chromatic_span(k: nat)
    requires
        k <= 12,
    ensures
        span(Scale::Chromatic.intervals(), k) == k,
    decreases k,
{
    if k > 0 {
        lemma_chromatic_span((k - 1) as nat);
    }
}

/// The steps of every scale add up to exactly one octave, so stacking them all
/// comes back to unison.
pub proof fn lemma_scale_spans_octave(scale: Scale)
    ensures
        span(scale.intervals(), scale.intervals().len()) == 12,
        running_total(scale.intervals(), scale.intervals().len()) == Interval::Unison,
{
    let steps = scale.intervals();
    match scale {
        Scale::Chromatic => {
            lemma_chromatic_span(12);
        },
        Scale::Diatonic(mode) => {
            reveal_with_fuel(span, 8);
            assert(steps[0].semitones() + steps[1].semitones() + steps[2].semitones()
                + steps[3].semitones() + steps[4].semitones() + steps[5].semitones()
                + steps[6].semitones() == 12);
        },
        Scale::Tetratonic => {
            reveal_with_fuel(span, 4);
        },
    }
    lemma_running_total_span(steps, steps.len());
}

} // verus!
