//! A key dictates which notes may be played: a base note, a scale up to the
//! next octave, and a number of octaves.

use crate::theory::interval::{running_total, Interval};
use crate::theory::note::Note;
use crate::theory::piano_key::{PianoKey, MAX_OCTAVE};
use crate::theory::scale::{lemma_scale_spans_octave, Scale};
use vstd::prelude::*;
use vstd::string::*;

verus! {

/// A scale laid over a run of octaves from a base key.
#[derive(Debug, Clone, Copy, PartialEq, Eq, Structural)]
pub struct Key {
    pub base_note: PianoKey,
    pub octaves: u8,
    pub scale: Scale,
}

impl Default for Key {
    fn default() -> (r: Key)
        ensures
            r == (Key { base_note: PianoKey { note: Note { accidental: None, letter: crate::theory::note::Letter::C }, octave: 0 }, octaves: 0, scale: Scale::Diatonic(crate::theory::scale::Mode::Ionian) }),
    {
        Key { base_note: PianoKey::default(), octaves: 0, scale: Scale::default() }
    }
}

/// The number of octaves a key spans from `base`: as asked, but never past the
/// highest octave of the keyboard.
pub open spec fn clamped_octaves(base: PianoKey, octaves: u8) -> u8 {
    if base.octave + octaves > MAX_OCTAVE {
        (MAX_OCTAVE - base.octave) as u8
    } else {
        octaves
    }
}

/// The text of a run of notes, each followed by a space.
pub open spec fn spaced_text(notes: Seq<Note>) -> Seq<char>
    decreases notes.len(),
{
    if notes.len() == 0 {
        Seq::empty()
    } else {
        spaced_text(notes.drop_last()) + notes.last().text() + seq![' ']
    }
}

proof fn lemma_div_mod_of_index(i: int, j: int, n: int)
    requires
        0 <= i,
        0 <= j < n,
    ensures
        (i * n + j) / n == i,
        (i * n + j) % n == j,
{
    vstd::arithmetic::div_mod::lemma_fundamental_div_mod_converse(i * n + j, n, i, j);
}

impl Key {
    /// The notes of one octave of the key: the base note, then one note per
    /// step of the scale, each reached by stacking the steps so far.
    pub open spec fn notes(self) -> Seq<Note> {
        let steps = self.scale.intervals();
        Seq::new(steps.len() + 1, |k: int| self.base_note.note.plus(running_total(steps, k as nat)))
    }

    /// The octave in which the `i`-th repetition of the notes is played.
    pub open spec fn octave_of(self, i: int) -> u8 {
        if self.base_note.octave + i > MAX_OCTAVE {
            MAX_OCTAVE
        } else {
            (self.base_note.octave + i) as u8
        }
    }

    /// Every key of the key: the notes, once per octave of the span.
    pub open spec fn keys(self) -> Seq<PianoKey> {
        let notes = self.notes();
        Seq::new(
            (self.octaves * notes.len()) as nat,
            |k: int| PianoKey { note: notes[k % notes.len() as int], octave: self.octave_of(k / notes.len() as int) },
        )
    }

    /// How the key is printed: its notes in brackets, such as `[ C D C ]`.
    pub open spec fn text(self) -> Seq<char> {
        "[ "@ + spaced_text(self.notes()) + "]"@
    }

    /// A key over `octaves` octaves from `base_note`, cut short so that it does
    /// not run past the highest octave.
    pub fn new(scale: Scale, base_note: PianoKey, octaves: u8) -> (r: Key)
        requires
            base_note.wf(),
        ensures
            r == (Key { base_note, octaves: clamped_octaves(base_note, octaves), scale }),
    {
        let octaves = if octaves > PianoKey::max_octave() - base_note.octave {
            PianoKey::max_octave() - base_note.octave
        } else {
            octaves
        };
        Key { base_note, octaves, scale }
    }

    /// Get the notes of one octave of the key, the base note repeated at the top.
    pub fn get_notes(self) -> (r: Vec<Note>)
        ensures
            r@ == self.notes(),
    {
        let mut ret = vec![self.base_note.note];
        let mut offset = Interval::Unison;
        let steps = self.scale.get_intervals();
        let mut i: usize = 0;
        while i < steps.len()
            invariant
                steps@ == self.scale.intervals(),
                i <= steps@.len(),
                offset == running_total(steps@, i as nat),
                ret@.len() == i + 1,
                forall|k: int| 0 <= k <= i ==> ret@[k] == self.notes()[k],
            decreases steps@.len() - i,
        {
            offset = offset + steps[i];
            ret.push(self.base_note.note + offset);
            i += 1;
        }
        assert(ret@ =~= self.notes());
        ret
    }

    /// Get a listing of all the piano keys in this key, octave by octave.
    pub fn all_keys(self) -> (r: Vec<PianoKey>)
        ensures
            r@ == self.keys(),
    {
        let notes = self.get_notes();
        let n = notes.len();
        let mut ret: Vec<PianoKey> = Vec::new();
        let mut i: u8 = 0;
        while i < self.octaves
            invariant
                notes@ == self.notes(),
                n == notes@.len(),
                n >= 1,
                n <= 13,
                i <= self.octaves,
                ret@.len() == i * n,
                forall|k: int| 0 <= k < i * n ==> ret@[k] == self.keys()[k],
            decreases self.octaves - i,
        {
            let wanted = self.base_note.octave as u16 + i as u16;
            let octave = if wanted > MAX_OCTAVE as u16 {
                MAX_OCTAVE
            } else {
                wanted as u8
            };
            let mut j: usize = 0;
            while j < n
                invariant
                    notes@ == self.notes(),
                    n == notes@.len(),
                    n >= 1,
                    n <= 13,
                    i < self.octaves,
                    j <= n,
                    octave == self.octave_of(i as int),
                    ret@.len() == i * n + j,
                    forall|k: int| 0 <= k < i * n + j ==> ret@[k] == self.keys()[k],
                decreases n - j,
            {
                proof {
                    lemma_div_mod_of_index(i as int, j as int, n as int);
                    assert(i * n + j < self.octaves * n) by (nonlinear_arith)
                        requires
                            i < self.octaves,
                            j < n,
                    ;
                }
                ret.push(PianoKey { note: notes[j], octave });
                proof {
                    let k = i * n + j;
                    assert(self.keys().len() == self.octaves * n);
                    assert(self.keys()[k] == PianoKey { note: notes@[j as int], octave });
                    assert forall|m: int| 0 <= m < k + 1 implies ret@[m] == self.keys()[m] by {
                        if m < k {
                        }
                    }
                }
                j += 1;
            }
            assert((i + 1) * n == i * n + n) by (nonlinear_arith);
            i += 1;
        }
        assert(ret@ =~= self.keys());
        ret
    }

    /// How the key is printed: its notes in brackets, each followed by a space.
    pub fn to_string(&self) -> (r: String)
        ensures
            r@ == self.text(),
    {
        let notes = self.get_notes();
        let mut r = "[ ".to_owned();
        let mut i: usize = 0;
        while i < notes.len()
            invariant
                notes@ == self.notes(),
                i <= notes@.len(),
                r@ == "[ "@ + spaced_text(notes@.take(i as int)),
            decreases notes@.len() - i,
        {
            let text = notes[i].to_string();
            r.append(text.as_str());
            r.append(" ");
            proof {
                reveal_strlit(" ");
                assert(notes@.take(i + 1).drop_last() =~= notes@.take(i as int));
            }
            assert(" "@ =~= seq![' ']);
            i += 1;
        }
        r.append("]");
        assert(notes@.take(notes@.len() as int) =~= notes@);
        r
    }
}

/// The notes of a key start on its base note and end on it again, one octave
/// up: the scale's steps span exactly one octave.
pub proof fn lemma_notes_end_on_base(key: Key)
    ensures
        key.notes().len() == key.scale.intervals().len() + 1,
        key.notes()[0] == key.base_note.note,
        key.notes().last() == key.base_note.note,
{
    lemma_scale_spans_octave(key.scale);
}

} // verus!
