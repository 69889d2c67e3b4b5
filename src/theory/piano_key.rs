//! A piano key is a note in a given octave: one key of the keyboard.

use crate::theory::error::{outcome, ErrorKind, ParseError};
use crate::theory::note::{lemma_note_text_round_trip, Note};
use crate::theory::semitone::Semitones;
use std::str::FromStr;
use vstd::prelude::*;
use vstd::string::*;

verus! {

/// The highest octave of the keyboard.
pub const MAX_OCTAVE: u8 = 8;

/// A note in an octave, with C0 the lowest key.
#[derive(Debug, Clone, Copy, PartialEq, Eq, Structural)]
pub struct PianoKey {
    pub note: Note,
    pub octave: u8,
}

impl Default for PianoKey {
    fn default() -> (r: PianoKey)
        ensures
            r == (PianoKey { note: Note { accidental: None, letter: crate::theory::note::Letter::C }, octave: 0 }),
    {
        PianoKey { note: Note::default(), octave: 0 }
    }
}

/// The character of a decimal digit.
pub open spec fn digit_char(d: nat) -> char {
    if d == 0 {
        '0'
    } else if d == 1 {
        '1'
    } else if d == 2 {
        '2'
    } else if d == 3 {
        '3'
    } else if d == 4 {
        '4'
    } else if d == 5 {
        '5'
    } else if d == 6 {
        '6'
    } else if d == 7 {
        '7'
    } else if d == 8 {
        '8'
    } else {
        '9'
    }
}

/// The decimal digits of a number, without leading zeros.
pub open spec fn decimal(n: nat) -> Seq<char>
    decreases n,
{
    if n < 10 {
        seq![digit_char(n)]
    } else {
        decimal(n / 10) + seq![digit_char(n % 10)]
    }
}

/// The value of a digit character, if it is one.
pub open spec fn digit_value(c: char) -> Option<nat> {
    if '0' <= c && c <= '9' {
        Some(((c as u32) - ('0' as u32)) as nat)
    } else {
        None
    }
}

fn digit_text(d: u8) -> (r: &'static str)
    requires
        d < 10,
    ensures
        r@ == seq![digit_char(d as nat)],
{
    proof {
        reveal_strlit("0");
        reveal_strlit("1");
        reveal_strlit("2");
        reveal_strlit("3");
        reveal_strlit("4");
        reveal_strlit("5");
        reveal_strlit("6");
        reveal_strlit("7");
        reveal_strlit("8");
        reveal_strlit("9");
    }
    let r = if d == 0 {
        "0"
    } else if d == 1 {
        "1"
    } else if d == 2 {
        "2"
    } else if d == 3 {
        "3"
    } else if d == 4 {
        "4"
    } else if d == 5 {
        "5"
    } else if d == 6 {
        "6"
    } else if d == 7 {
        "7"
    } else if d == 8 {
        "8"
    } else {
        "9"
    };
    assert(r@ =~= seq![digit_char(d as nat)]);
    r
}

/// The decimal form of a number.
pub(crate) fn decimal_text(n: u8) -> (r: String)
    ensures
        r@ == decimal(n as nat),
{
    if n < 10 {
        digit_text(n).to_owned()
    } else if n < 100 {
        let mut r = digit_text(n / 10).to_owned();
        r.append(digit_text(n % 10));
        assert(decimal((n / 10) as nat) == seq![digit_char((n / 10) as nat)]);
        r
    } else {
        let mut r = digit_text(n / 100).to_owned();
        r.append(digit_text((n / 10) % 10));
        r.append(digit_text(n % 10));
        assert(decimal((n / 100) as nat) == seq![digit_char((n / 100) as nat)]);
        assert((n / 10) / 10 == n / 100);
        assert(decimal((n / 10) as nat) == decimal((n / 100) as nat) + seq![digit_char(((n / 10) % 10) as nat)]);
        r
    }
}

impl PianoKey {
    /// A key of the keyboard: its octave is at most the highest one.
    pub open spec fn wf(self) -> bool {
        self.octave <= MAX_OCTAVE
    }

    /// How the key is written: the note, then the octave number.
    pub open spec fn text(self) -> Seq<char> {
        self.note.text() + decimal(self.octave as nat)
    }

    /// The position of the key in semitones above C0, counted from its letter
    /// alone: the accidental is not applied.
    pub open spec fn spec_semitones_above_c0(self) -> int {
        12 * self.octave + self.note.letter.natural_interval().semitones()
    }

    /// What reading a key gives: a note, then a single digit 0 to 8 for the octave.
    pub open spec fn parse_spec(s: Seq<char>) -> Result<PianoKey, (ErrorKind, Seq<char>)> {
        if s.len() == 0 {
            Err((ErrorKind::InvalidNote, s))
        } else {
            let last = s.last();
            match digit_value(last) {
                None => Err((ErrorKind::InvalidOctave, seq![last])),
                Some(octave) => match Note::parse_spec(s.drop_last()) {
                    Err(e) => Err(e),
                    Ok(note) => if octave <= MAX_OCTAVE {
                        Ok(PianoKey { note, octave: octave as u8 })
                    } else {
                        Err((ErrorKind::InvalidOctave, seq![last]))
                    },
                },
            }
        }
    }

    /// Read a key such as `A4`, `F#8` or `G♭2`.
    pub fn new(s: &str) -> (r: Result<PianoKey, ParseError>)
        ensures
            outcome(r) == PianoKey::parse_spec(s@),
            r matches Ok(k) ==> k.wf(),
    {
        let n = s.unicode_len();
        if n == 0 {
            return Err(ParseError::new(ErrorKind::InvalidNote, s));
        }
        let last = s.get_char(n - 1);
        if !('0' <= last && last <= '9') {
            let text = s.substring_char(n - 1, n);
            assert(text@ =~= seq![last]);
            return Err(ParseError::new(ErrorKind::InvalidOctave, text));
        }
        let octave = (last as u32 - '0' as u32) as u8;
        let note = match Note::parse(s.substring_char(0, n - 1)) {
            Ok(note) => note,
            Err(e) => {
                assert(s@.subrange(0, n - 1) =~= s@.drop_last());
                return Err(e);
            },
        };
        assert(s@.subrange(0, n - 1) =~= s@.drop_last());
        if octave <= Self::max_octave() {
            Ok(PianoKey { note, octave })
        } else {
            let text = s.substring_char(n - 1, n);
            assert(text@ =~= seq![last]);
            Err(ParseError::new(ErrorKind::InvalidOctave, text))
        }
    }

    /// Get the highest allowed octave.
    pub fn max_octave() -> (r: u8)
        ensures
            r == MAX_OCTAVE,
    {
        MAX_OCTAVE
    }

    /// The distance of the key above C0, from its octave and its letter. The
    /// accidental of the note does not enter.
    pub fn semitones_above_c0(self) -> (r: Semitones)
        requires
            self.wf(),
        ensures
            r@ == self.spec_semitones_above_c0(),
    {
        let letter = Semitones::from(self.note.letter.interval_from_c());
        Semitones::from(12 * (self.octave as i8) + letter.0)
    }

    /// How the key is written, such as `C#4`.
    pub fn to_string(&self) -> (r: String)
        ensures
            r@ == self.text(),
    {
        let mut r = self.note.to_string();
        let octave = decimal_text(self.octave);
        r.append(octave.as_str());
        r
    }
}

impl FromStr for PianoKey {
    type Err = ParseError;

    fn from_str(s: &str) -> (r: Result<PianoKey, ParseError>)
        ensures
            outcome(r) == PianoKey::parse_spec(s@),
            r matches Ok(k) ==> k.wf(),
    {
        PianoKey::new(s)
    }
}

/// Keys sit higher the higher their octave, and within one octave the later
/// their letter.
pub proof fn lemma_position_increases(a: PianoKey, b: PianoKey)
    requires
        a.octave < b.octave || (a.octave == b.octave && a.note.letter.ordinal()
            < b.note.letter.ordinal()),
    ensures
        a.spec_semitones_above_c0() < b.spec_semitones_above_c0(),
{
}

/// Printing a key of the keyboard and reading the text back gives the same key.
pub proof fn lemma_piano_key_text_round_trip(k: PianoKey)
    requires
        k.wf(),
    ensures
        PianoKey::parse_spec(k.text()) == Ok::<PianoKey, (ErrorKind, Seq<char>)>(k),
{
    let t = k.text();
    let d = digit_char(k.octave as nat);
    assert(decimal(k.octave as nat) == seq![d]);
    assert(t.last() == d);
    assert(t.drop_last() =~= k.note.text());
    assert(digit_value(d) == Some(k.octave as nat));
    lemma_note_text_round_trip(k.note);
}

} // verus!
