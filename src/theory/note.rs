//! A note is a pitch class spelled as a letter with an optional accidental.

use crate::theory::error::{outcome, ErrorKind, ParseError};
use crate::theory::interval::{running_total, Interval};
use crate::theory::scale::Scale;
use crate::theory::semitone::Semitones;
use crate::theory::text::{to_upper, uppercase};
use std::ops::Add;
use std::str::FromStr;
use vstd::prelude::*;
use vstd::string::*;

verus! {

/// Notes are one of these letters, with C as the base note.
#[derive(Debug, Clone, Copy, PartialEq, Eq, Structural)]
pub enum Letter {
    C,
    D,
    E,
    F,
    G,
    A,
    B,
}

impl Default for Letter {
    fn default() -> (r: Letter)
        ensures
            r == Letter::C,
    {
        Letter::C
    }
}

impl Letter {
    /// The position of the letter in the octave that starts on C.
    pub open spec fn ordinal(self) -> nat {
        match self {
            Letter::C => 0,
            Letter::D => 1,
            Letter::E => 2,
            Letter::F => 3,
            Letter::G => 4,
            Letter::A => 5,
            Letter::B => 6,
        }
    }

    /// The next letter up, with B wrapping to C.
    pub open spec fn next(self) -> Letter {
        match self {
            Letter::C => Letter::D,
            Letter::D => Letter::E,
            Letter::E => Letter::F,
            Letter::F => Letter::G,
            Letter::G => Letter::A,
            Letter::A => Letter::B,
            Letter::B => Letter::C,
        }
    }

    /// The distance of the natural note above C.
    pub open spec fn natural_interval(self) -> Interval {
        match self {
            Letter::C => Interval::Unison,
            Letter::D => Interval::Maj2,
            Letter::E => Interval::Maj3,
            Letter::F => Interval::Perfect4,
            Letter::G => Interval::Perfect5,
            Letter::A => Interval::Maj6,
            Letter::B => Interval::Maj7,
        }
    }

    /// The character the letter is written with.
    pub open spec fn symbol(self) -> char {
        match self {
            Letter::C => 'C',
            Letter::D => 'D',
            Letter::E => 'E',
            Letter::F => 'F',
            Letter::G => 'G',
            Letter::A => 'A',
            Letter::B => 'B',
        }
    }

    /// The letter that an uppercase text of one character names.
    pub open spec fn named(s: Seq<char>) -> Option<Letter> {
        if s.len() != 1 {
            None
        } else if s[0] == 'A' {
            Some(Letter::A)
        } else if s[0] == 'B' {
            Some(Letter::B)
        } else if s[0] == 'C' {
            Some(Letter::C)
        } else if s[0] == 'D' {
            Some(Letter::D)
        } else if s[0] == 'E' {
            Some(Letter::E)
        } else if s[0] == 'F' {
            Some(Letter::F)
        } else if s[0] == 'G' {
            Some(Letter::G)
        } else {
            None
        }
    }

    /// What reading a letter gives: either case is accepted.
    pub open spec fn parse_spec(s: Seq<char>) -> Result<Letter, (ErrorKind, Seq<char>)> {
        match Letter::named(uppercase(s)) {
            Some(l) => Ok(l),
            None => Err((ErrorKind::InvalidNote, s)),
        }
    }

    fn ordinal_exec(self) -> (r: usize)
        ensures
            r == self.ordinal(),
    {
        match self {
            Letter::C => 0,
            Letter::D => 1,
            Letter::E => 2,
            Letter::F => 3,
            Letter::G => 4,
            Letter::A => 5,
            Letter::B => 6,
        }
    }

    /// Get the next highest letter.
    fn inc(self) -> (r: Letter)
        ensures
            r == self.next(),
    {
        match self {
            Letter::C => Letter::D,
            Letter::D => Letter::E,
            Letter::E => Letter::F,
            Letter::F => Letter::G,
            Letter::G => Letter::A,
            Letter::A => Letter::B,
            Letter::B => Letter::C,
        }
    }

    /// Get the distance from C as an interval, by stacking the steps of the
    /// major scale up to this letter.
    pub fn interval_from_c(self) -> (r: Interval)
        ensures
            r == self.natural_interval(),
    {
        let steps = Scale::default().get_intervals();
        let n = self.ordinal_exec();
        let mut acc = Interval::Unison;
        let mut i: usize = 0;
        while i < n
            invariant
                steps@ == Scale::Diatonic(crate::theory::scale::Mode::Ionian).intervals(),
                n == self.ordinal(),
                n <= 6,
                i <= n,
                acc == running_total(steps@, i as nat),
            decreases n - i,
        {
            acc = acc + steps[i];
            i += 1;
        }
        proof {
            lemma_major_stack(steps@);
        }
        acc
    }

    /// The uppercase letter that an already uppercased text names, if any.
    pub fn from_upper(s: &str) -> (r: Option<Letter>)
        ensures
            r == Letter::named(s@),
    {
        if s.unicode_len() != 1 {
            return None;
        }
        let c = s.get_char(0);
        if c == 'A' {
            Some(Letter::A)
        } else if c == 'B' {
            Some(Letter::B)
        } else if c == 'C' {
            Some(Letter::C)
        } else if c == 'D' {
            Some(Letter::D)
        } else if c == 'E' {
            Some(Letter::E)
        } else if c == 'F' {
            Some(Letter::F)
        } else if c == 'G' {
            Some(Letter::G)
        } else {
            None
        }
    }

    /// Read a note letter, in either case.
    pub fn parse(s: &str) -> (r: Result<Letter, ParseError>)
        ensures
            outcome(r) == Letter::parse_spec(s@),
    {
        let upper = to_upper(s);
        match Letter::from_upper(upper.as_str()) {
            Some(l) => Ok(l),
            None => Err(ParseError::new(ErrorKind::InvalidNote, s)),
        }
    }

    fn name(self) -> (r: &'static str)
        ensures
            r@ == seq![self.symbol()],
    {
        match self {
            Letter::C => {
                proof {
                    reveal_strlit("C");
                }
                assert("C"@ =~= seq!['C']);
                "C"
            },
            Letter::D => {
                proof {
                    reveal_strlit("D");
                }
                assert("D"@ =~= seq!['D']);
                "D"
            },
            Letter::E => {
                proof {
                    reveal_strlit("E");
                }
                assert("E"@ =~= seq!['E']);
                "E"
            },
            Letter::F => {
                proof {
                    reveal_strlit("F");
                }
                assert("F"@ =~= seq!['F']);
                "F"
            },
            Letter::G => {
                proof {
                    reveal_strlit("G");
                }
                assert("G"@ =~= seq!['G']);
                "G"
            },
            Letter::A => {
                proof {
                    reveal_strlit("A");
                }
                assert("A"@ =~= seq!['A']);
                "A"
            },
            Letter::B => {
                proof {
                    reveal_strlit("B");
                }
                assert("B"@ =~= seq!['B']);
                "B"
            },
        }
    }
}

/// Stacking the steps of the major scale gives the distance of each natural
/// note above C.
proof fn lemma_major_stack(steps: Seq<Interval>)
    requires
        steps == Scale::Diatonic(crate::theory::scale::Mode::Ionian).intervals(),
    ensures
        forall|l: Letter| #[trigger] running_total(steps, l.ordinal()) == l.natural_interval(),
{
    assert(steps =~= crate::theory::scale::ionian_steps());
    assert(running_total(steps, 0) == Interval::Unison);
    assert(running_total(steps, 1) == Interval::Maj2);
    assert(running_total(steps, 2) == Interval::Maj3);
    assert(running_total(steps, 3) == Interval::Perfect4);
    assert(running_total(steps, 4) == Interval::Perfect5);
    assert(running_total(steps, 5) == Interval::Maj6);
    assert(running_total(steps, 6) == Interval::Maj7);
}

impl FromStr for Letter {
    type Err = ParseError;

    fn from_str(s: &str) -> (r: Result<Letter, ParseError>)
        ensures
            outcome(r) == Letter::parse_spec(s@),
    {
        Letter::parse(s)
    }
}

/// An accidental moves a note by one semitone: flats go down, sharps go up.
#[derive(Debug, Clone, Copy, PartialEq, Eq, Structural)]
pub enum Accidental {
    Flat,
    Sharp,
}

impl Accidental {
    /// How the accidental is written: `♭` or `#`.
    pub open spec fn text(self) -> Seq<char> {
        match self {
            Accidental::Flat => seq!['♭'],
            Accidental::Sharp => seq!['#'],
        }
    }

    /// The accidental that a text names: `b` or `♭` for flat, `#` for sharp.
    pub open spec fn named(s: Seq<char>) -> Option<Accidental> {
        if s.len() != 1 {
            None
        } else if s[0] == 'b' || s[0] == '♭' {
            Some(Accidental::Flat)
        } else if s[0] == '#' {
            Some(Accidental::Sharp)
        } else {
            None
        }
    }

    pub open spec fn parse_spec(s: Seq<char>) -> Result<Accidental, (ErrorKind, Seq<char>)> {
        match Accidental::named(s) {
            Some(a) => Ok(a),
            None => Err((ErrorKind::InvalidAccidental, s)),
        }
    }

    /// Read an accidental.
    pub fn parse(s: &str) -> (r: Result<Accidental, ParseError>)
        ensures
            outcome(r) == Accidental::parse_spec(s@),
    {
        if s.unicode_len() == 1 {
            let c = s.get_char(0);
            if c == 'b' || c == '♭' {
                return Ok(Accidental::Flat);
            } else if c == '#' {
                return Ok(Accidental::Sharp);
            }
        }
        Err(ParseError::new(ErrorKind::InvalidAccidental, s))
    }

    /// How the accidental is written: `♭` or `#`.
    pub fn to_string(&self) -> (r: String)
        ensures
            r@ == self.text(),
    {
        match self {
            Accidental::Flat => {
                proof {
                    reveal_strlit("♭");
                }
                assert("♭"@ =~= seq!['♭']);
                "♭".to_owned()
            },
            Accidental::Sharp => {
                proof {
                    reveal_strlit("#");
                }
                assert("#"@ =~= seq!['#']);
                "#".to_owned()
            },
        }
    }
}

impl FromStr for Accidental {
    type Err = ParseError;

    fn from_str(s: &str) -> (r: Result<Accidental, ParseError>)
        ensures
            outcome(r) == Accidental::parse_spec(s@),
    {
        Accidental::parse(s)
    }
}

/// A pitch class: a letter and at most one accidental.
#[derive(Debug, Clone, Copy, PartialEq, Eq, Structural)]
pub struct Note {
    pub accidental: Option<Accidental>,
    pub letter: Letter,
}

impl Default for Note {
    fn default() -> (r: Note)
        ensures
            r == (Note { accidental: None, letter: Letter::C }),
    {
        Note { accidental: None, letter: Letter::C }
    }
}

impl Note {
    /// The distance above C in semitones, before reduction to an interval class:
    /// a flat C lies one below it.
    pub open spec fn offset_from_c(self) -> int {
        self.letter.natural_interval().semitones() + match self.accidental {
            None => 0,
            Some(Accidental::Flat) => -1,
            Some(Accidental::Sharp) => 1,
        }
    }

    /// The spelling one semitone up. Sharps resolve to the next letter and flats
    /// to their own; a natural gains a sharp, except B and E, which have no
    /// black key above them and move to the next letter.
    pub open spec fn step_up(self) -> Note {
        match self.accidental {
            Some(Accidental::Sharp) => Note { accidental: None, letter: self.letter.next() },
            Some(Accidental::Flat) => Note { accidental: None, letter: self.letter },
            None => if self.letter == Letter::B || self.letter == Letter::E {
                Note { accidental: None, letter: self.letter.next() }
            } else {
                Note { accidental: Some(Accidental::Sharp), letter: self.letter }
            },
        }
    }

    /// The spelling reached by `n` single-semitone steps up.
    pub open spec fn steps_up(self, n: nat) -> Note
        decreases n,
    {
        if n == 0 {
            self
        } else {
            self.steps_up((n - 1) as nat).step_up()
        }
    }

    /// The note an interval above this one, spelled by stepping up one semitone
    /// at a time.
    pub open spec fn plus(self, i: Interval) -> Note {
        self.steps_up(i.semitones() as nat)
    }

    /// How the note is written: its letter, then its accidental if any.
    pub open spec fn text(self) -> Seq<char> {
        match self.accidental {
            None => seq![self.letter.symbol()],
            Some(a) => seq![self.letter.symbol()] + a.text(),
        }
    }

    /// What reading a note gives: one letter in either case, then at most one
    /// accidental, and nothing after.
    pub open spec fn parse_spec(s: Seq<char>) -> Result<Note, (ErrorKind, Seq<char>)> {
        if s.len() == 0 {
            Err((ErrorKind::InvalidNote, s))
        } else {
            match Letter::parse_spec(s.take(1)) {
                Err(e) => Err(e),
                Ok(letter) => if s.len() == 1 {
                    Ok(Note { accidental: None, letter })
                } else {
                    match Accidental::parse_spec(s.subrange(1, 2)) {
                        Err(e) => Err(e),
                        Ok(a) => if s.len() == 2 {
                            Ok(Note { accidental: Some(a), letter })
                        } else {
                            Err((ErrorKind::InvalidNote, s))
                        },
                    }
                },
            }
        }
    }

    /// The distance of this note above C, as an interval class.
    pub fn interval_from_c(self) -> (r: Interval)
        ensures
            r == Interval::from_semitones(self.offset_from_c()),
    {
        let ret = self.letter.interval_from_c();
        match self.accidental {
            Some(Accidental::Flat) => Interval::from(Semitones::from(i8::from(Semitones::from(ret)) - 1)),
            Some(Accidental::Sharp) => ret + Interval::Min2,
            None => ret,
        }
    }

    /// The interval from `other` up to this note.
    pub fn get_offset(self, other: Note) -> (r: Interval)
        ensures
            r == Interval::from_semitones(self.offset_from_c() - other.offset_from_c()),
    {
        let self_interval_from_c = self.interval_from_c();
        let other_interval_from_c = other.interval_from_c();
        proof {
            vstd::arithmetic::div_mod::lemma_sub_mod_noop(
                self.offset_from_c(),
                other.offset_from_c(),
                12,
            );
        }
        self_interval_from_c - other_interval_from_c
    }

    /// Move the note up by one semitone.
    fn inc(&mut self)
        ensures
            *final(self) == old(self).step_up(),
    {
        match self.accidental {
            Some(acc) => {
                self.accidental = None;
                match acc {
                    Accidental::Sharp => {
                        self.letter = self.letter.inc();
                    },
                    Accidental::Flat => {},
                }
            },
            None => {
                if self.letter == Letter::B || self.letter == Letter::E {
                    self.letter = self.letter.inc();
                } else {
                    self.accidental = Some(Accidental::Sharp);
                }
            },
        }
    }

    /// Read a note: a letter A to G in either case, optionally followed by `#`,
    /// `b` or `♭`.
    pub fn parse(s: &str) -> (r: Result<Note, ParseError>)
        ensures
            outcome(r) == Note::parse_spec(s@),
    {
        let n = s.unicode_len();
        if n == 0 {
            return Err(ParseError::new(ErrorKind::InvalidNote, s));
        }
        let letter = match Letter::parse(s.substring_char(0, 1)) {
            Ok(l) => l,
            Err(e) => return Err(e),
        };
        if n == 1 {
            return Ok(Note { accidental: None, letter });
        }
        let accidental = match Accidental::parse(s.substring_char(1, 2)) {
            Ok(a) => a,
            Err(e) => return Err(e),
        };
        if n == 2 {
            Ok(Note { accidental: Some(accidental), letter })
        } else {
            Err(ParseError::new(ErrorKind::InvalidNote, s))
        }
    }

    /// How the note is written, such as `C`, `F#` or `B♭`.
    pub fn to_string(&self) -> (r: String)
        ensures
            r@ == self.text(),
    {
        let mut r = self.letter.name().to_owned();
        match self.accidental {
            Some(a) => {
                let acc = a.to_string();
                r.append(acc.as_str());
            },
            None => {},
        }
        r
    }
}

impl FromStr for Note {
    type Err = ParseError;

    fn from_str(s: &str) -> (r: Result<Note, ParseError>)
        ensures
            outcome(r) == Note::parse_spec(s@),
    {
        Note::parse(s)
    }
}

impl Add<Interval> for Note {
    type Output = Note;

    fn add(self, rhs: Interval) -> (r: Note) {
        let semitones = Semitones::from(rhs);
        let n = i8::from(semitones);
        let mut ret = self;
        let mut i: i8 = 0;
        while i < n
            invariant
                n == rhs.semitones(),
                0 <= i <= n,
                ret == self.steps_up(i as nat),
            decreases n - i,
        {
            ret.inc();
            i += 1;
        }
        ret
    }
}

impl vstd::std_specs::ops::AddSpecImpl<Interval> for Note {
    open spec fn obeys_add_spec() -> bool {
        true
    }

    open spec fn add_req(self, rhs: Interval) -> bool {
        true
    }

    open spec fn add_spec(self, rhs: Interval) -> Note {
        self.plus(rhs)
    }
}

impl From<Interval> for Note {
    /// The note an interval above C, reached one semitone at a time.
    fn from(i: Interval) -> (r: Note) {
        let mut offset = Interval::Unison;
        let steps = Scale::Chromatic.get_intervals();
        let n = Semitones::from(i).0 as usize;
        let mut k: usize = 0;
        while k < n
            invariant
                steps@ == Scale::Chromatic.intervals(),
                n == i.semitones(),
                n <= 12,
                k <= n,
                offset == Interval::from_semitones(k as int),
            decreases n - k,
        {
            offset = offset + steps[k];
            k += 1;
        }
        Note::default() + offset
    }
}

impl vstd::std_specs::convert::FromSpecImpl<Interval> for Note {
    open spec fn obeys_from_spec() -> bool {
        true
    }

    open spec fn from_spec(i: Interval) -> Note {
        (Note { accidental: None, letter: Letter::C }).plus(Interval::from_semitones(i.semitones()))
    }
}

/// Printing a note and reading the text back gives the same note.
pub proof fn lemma_note_text_round_trip(n: Note)
    ensures
        Note::parse_spec(n.text()) == Ok::<Note, (ErrorKind, Seq<char>)>(n),
{
    let t = n.text();
    let first = t.take(1);
    assert(first =~= seq![n.letter.symbol()]);
    assert(crate::theory::text::is_ascii_text(first));
    assert(uppercase(first) =~= first);
    match n.accidental {
        None => {},
        Some(a) => {
            assert(t.subrange(1, 2) =~= a.text());
        },
    }
}

} // verus!
