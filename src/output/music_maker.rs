//! The note-switching engine behind the sample stream: which note sounds at
//! each sample, and when the next note is picked.

use crate::output::seed::{lemma_keys_not_empty, Random, Seed};
use crate::theory::key::{clamped_octaves, Key};
use crate::theory::note::Note;
use crate::theory::piano_key::{decimal, decimal_text, PianoKey, MAX_OCTAVE};
use crate::theory::scale::Scale;
use vstd::prelude::*;
use vstd::string::*;

verus! {

/// The number of samples per second of the stream.
pub const SAMPLE_RATE: u32 = 48_000;

/// What one sample of the stream is made from: the note sounding and how many
/// samples of it have been emitted, this one included.
#[derive(Debug, Clone, Copy, PartialEq, Eq, Structural)]
pub struct Tick {
    pub note: PianoKey,
    pub elapsed: usize,
}

/// A running melody: it plays each note for one second of samples, then asks
/// its seed for the next note of its key.
pub struct MusicMaker<S: Seed> {
    key: Key,
    seed: S,
    current_note: PianoKey,
    current_sample: usize,
    sample_rate: u32,
}

impl<S: Seed> MusicMaker<S> {
    /// The key that notes are picked from.
    pub closed spec fn spec_key(&self) -> Key {
        self.key
    }

    /// The note sounding now.
    pub closed spec fn spec_current_note(&self) -> PianoKey {
        self.current_note
    }

    /// The strategy that picks the notes.
    pub closed spec fn spec_seed(&self) -> S {
        self.seed
    }

    /// The samples emitted since the current note was picked.
    pub closed spec fn elapsed(&self) -> nat {
        self.current_sample as nat
    }

    /// The samples per second, which is also the length of a note in samples.
    pub closed spec fn spec_sample_rate(&self) -> nat {
        self.sample_rate as nat
    }

    /// The state of a running melody: the key has keys and stays on the
    /// keyboard, the note sounding is one of them, and less than one note's
    /// length has been emitted.
    pub open spec fn wf(&self) -> bool {
        &&& self.spec_key().octaves >= 1
        &&& self.spec_key().base_note.octave + self.spec_key().octaves <= MAX_OCTAVE
        &&& self.spec_key().keys().contains(self.spec_current_note())
        &&& self.elapsed() < self.spec_sample_rate()
    }

    /// How one call of `next` moves the melody on: the key and the rate stay,
    /// the sample count goes up by one modulo the rate, and only when the count
    /// comes back to zero does the seed pick the next note; otherwise the note
    /// and the seed stay as they were.
    pub open spec fn steps_to(&self, after: &Self) -> bool {
        &&& after.spec_key() == self.spec_key()
        &&& after.spec_sample_rate() == self.spec_sample_rate()
        &&& after.elapsed() == (self.elapsed() + 1) % self.spec_sample_rate()
        &&& (after.elapsed() != 0 ==> after.spec_current_note() == self.spec_current_note()
            && after.spec_seed() == self.spec_seed())
        &&& (after.elapsed() == 0 ==> self.spec_seed().picks(
            self.spec_key(),
            after.spec_seed(),
            after.spec_current_note(),
        ))
        &&& after.wf()
    }

    /// A melody in the key of `octaves` octaves of `scale` from `base_note`,
    /// starting on the base note, with notes picked by `seed`.
    pub fn with_seed(seed: S, base_note: PianoKey, scale: Scale, octaves: u8) -> (r: Self)
        requires
            base_note.octave < MAX_OCTAVE,
            octaves >= 1,
        ensures
            r.wf(),
            r.spec_key() == (Key { base_note, octaves: clamped_octaves(base_note, octaves), scale }),
            r.spec_current_note() == base_note,
            r.spec_seed() == seed,
            r.elapsed() == 0,
            r.spec_sample_rate() == SAMPLE_RATE,
    {
        let key = Key::new(scale, base_note, octaves);
        proof {
            lemma_base_note_in_key(key);
        }
        MusicMaker { key, seed, current_note: base_note, current_sample: 0, sample_rate: SAMPLE_RATE }
    }

    /// Play in another key, starting again from its base note.
    pub fn set_key(self, base_note: PianoKey, scale: Scale, octaves: u8) -> (r: Self)
        requires
            self.wf(),
            base_note.octave < MAX_OCTAVE,
            octaves >= 1,
        ensures
            r.wf(),
            r.spec_key() == (Key { base_note, octaves: clamped_octaves(base_note, octaves), scale }),
            r.spec_current_note() == base_note,
            r.spec_seed() == self.spec_seed(),
            r.elapsed() == self.elapsed(),
            r.spec_sample_rate() == self.spec_sample_rate(),
    {
        let mut s = self;
        s.key = Key::new(scale, base_note, octaves);
        s.current_note = base_note;
        proof {
            lemma_base_note_in_key(s.key);
        }
        s
    }

    /// Ask the seed for the next note.
    fn new_note(&mut self)
        requires
            old(self).spec_key().octaves >= 1,
        ensures
            final(self).key == old(self).key,
            final(self).current_sample == old(self).current_sample,
            final(self).sample_rate == old(self).sample_rate,
            final(self).key.keys().contains(final(self).current_note),
            old(self).seed.picks(old(self).key, final(self).seed, final(self).current_note),
    {
        self.current_note = self.seed.get_note(self.key);
    }

    /// Emit one sample: the note sounding and its running sample count. Once a
    /// full second of samples has been emitted, the count starts again from
    /// zero and the seed picks the next note.
    pub fn next(&mut self) -> (r: Tick)
        requires
            old(self).wf(),
        ensures
            old(self).steps_to(&*final(self)),
            r.note == old(self).spec_current_note(),
            r.elapsed == old(self).elapsed() + 1,
            old(self).spec_key().keys().contains(r.note),
    {
        let elapsed = self.current_sample + 1;
        let tick = Tick { note: self.current_note, elapsed };
        if elapsed >= self.sample_rate as usize {
            proof {
                vstd::arithmetic::div_mod::lemma_mod_self_0(self.sample_rate as int);
            }
            self.current_sample = 0;
            self.new_note();
        } else {
            proof {
                vstd::arithmetic::div_mod::lemma_small_mod(elapsed as nat, self.sample_rate as nat);
            }
            self.current_sample = elapsed;
        }
        tick
    }

    /// The text that introduces the melody: base note, scale, octave range
    /// and the notes of the key.
    pub open spec fn description(&self) -> Seq<char> {
        let key = self.spec_key();
        "Generating music from the "@ + key.base_note.note.text() + " "@ + key.scale.label()
            + "\nOctaves: "@ + decimal(key.base_note.octave as nat) + " - "@ + decimal(
            (key.base_note.octave + key.octaves) as nat,
        ) + "\n"@ + key.text()
    }

    /// Describe the melody, such as `Generating music from the C major scale`,
    /// then its octave range and the notes of its key.
    pub fn describe(&self) -> (r: String)
        requires
            self.wf(),
        ensures
            r@ == self.description(),
    {
        let key = self.key;
        let mut r = "Generating music from the ".to_owned();
        r.append(key.base_note.note.to_string().as_str());
        r.append(" ");
        r.append(key.scale.to_string().as_str());
        r.append("\nOctaves: ");
        r.append(decimal_text(key.base_note.octave).as_str());
        r.append(" - ");
        r.append(decimal_text(key.base_note.octave + key.octaves).as_str());
        r.append("\n");
        r.append(key.to_string().as_str());
        r
    }

    /// The key that notes are picked from.
    pub fn key(&self) -> (r: Key)
        ensures
            r == self.spec_key(),
    {
        self.key
    }

    /// The note sounding now.
    pub fn current_note(&self) -> (r: PianoKey)
        ensures
            r == self.spec_current_note(),
    {
        self.current_note
    }

    /// The number of samples per second.
    pub fn sample_rate(&self) -> (r: u32)
        ensures
            r == self.spec_sample_rate(),
    {
        self.sample_rate
    }
}

impl MusicMaker<Random> {
    /// A melody in the key of `octaves` octaves of `scale` from `base_note`,
    /// with notes picked at random.
    pub fn new(base_note: PianoKey, scale: Scale, octaves: u8) -> (r: Self)
        requires
            base_note.octave < MAX_OCTAVE,
            octaves >= 1,
        ensures
            r.wf(),
            r.spec_key() == (Key { base_note, octaves: clamped_octaves(base_note, octaves), scale }),
            r.spec_current_note() == base_note,
            r.elapsed() == 0,
            r.spec_sample_rate() == SAMPLE_RATE,
    {
        MusicMaker::with_seed(Random::default(), base_note, scale, octaves)
    }
}

impl Default for MusicMaker<Random> {
    /// One octave of the major scale from C4.
    fn default() -> (r: Self)
        ensures
            r.wf(),
            r.spec_key() == (Key {
                base_note: PianoKey { note: Note { accidental: None, letter: crate::theory::note::Letter::C }, octave: 4 },
                octaves: 1,
                scale: Scale::Diatonic(crate::theory::scale::Mode::Ionian),
            }),
            r.elapsed() == 0,
    {
        MusicMaker::new(PianoKey { note: Note::default(), octave: 4 }, Scale::default(), 1)
    }
}

/// The base note of a key of at least one octave is its first piano key.
proof fn lemma_base_note_in_key(key: Key)
    requires
        key.octaves >= 1,
        key.base_note.wf(),
    ensures
        key.keys().contains(key.base_note),
{
    lemma_keys_not_empty(key);
    let n = key.notes().len();
    assert(0int % (n as int) == 0 && 0int / (n as int) == 0);
    assert(key.keys()[0] == key.base_note);
}

/// How many of the first `k` calls of `next` in a run of states switched the
/// note: after such a call the sample count is back at zero.
pub open spec fn switches<S: Seed>(run: Seq<MusicMaker<S>>, k: nat) -> nat
    decreases k,
{
    if k == 0 {
        0
    } else {
        switches(run, (k - 1) as nat) + if run[k as int].elapsed() == 0 {
            1nat
        } else {
            0nat
        }
    }
}

proof fn lemma_run_prefix<S: Seed>(run: Seq<MusicMaker<S>>, k: nat)
    requires
        run.len() == run[0].spec_sample_rate() + 1,
        run[0].wf(),
        forall|i: int| 0 <= i < run.len() - 1 ==> #[trigger] run[i].steps_to(&run[i + 1]),
        k <= run[0].spec_sample_rate(),
    ensures
        run[k as int].wf(),
        run[k as int].spec_key() == run[0].spec_key(),
        run[k as int].spec_sample_rate() == run[0].spec_sample_rate(),
        run[k as int].elapsed() == if run[0].elapsed() + k >= run[0].spec_sample_rate() {
            run[0].elapsed() + k - run[0].spec_sample_rate()
        } else {
            run[0].elapsed() + k as int
        },
        switches(run, k) == if run[0].elapsed() + k >= run[0].spec_sample_rate() {
            1nat
        } else {
            0nat
        },
    decreases k,
{
    if k > 0 {
        lemma_run_prefix(run, (k - 1) as nat);
        let j = k - 1;
        assert(run[j].steps_to(&run[j + 1]));
        let prev = run[j];
        let rate = prev.spec_sample_rate();
        let x = prev.elapsed() + 1;
        if x == rate {
            vstd::arithmetic::div_mod::lemma_mod_self_0(rate as int);
        } else {
            vstd::arithmetic::div_mod::lemma_small_mod(x, rate);
        }
    }
}

/// Over any `sample_rate` consecutive calls of `next` from a running melody,
/// the note switches exactly once: the seed picks on that call alone, and on
/// every other call note and seed stay. Every state of the run keeps its key
/// and sounds one of that key's piano keys.
pub proof fn lemma_one_switch_per_second<S: Seed>(run: Seq<MusicMaker<S>>)
    requires
        run.len() == run[0].spec_sample_rate() + 1,
        run[0].wf(),
        forall|i: int| 0 <= i < run.len() - 1 ==> #[trigger] run[i].steps_to(&run[i + 1]),
    ensures
        switches(run, run[0].spec_sample_rate()) == 1,
        forall|i: int|
            0 <= i < run.len() ==> #[trigger] run[i].spec_key() == run[0].spec_key()
                && run[i].spec_key().keys().contains(run[i].spec_current_note()),
{
    lemma_run_prefix(run, run[0].spec_sample_rate());
    assert forall|i: int| 0 <= i < run.len() implies #[trigger] run[i].spec_key() == run[0].spec_key()
        && run[i].spec_key().keys().contains(run[i].spec_current_note()) by {
        lemma_run_prefix(run, i as nat);
    }
}

/// Over a run of `n` calls of `next` from a running melody, the seed picks
/// exactly `(elapsed + n) / sample_rate` times, counting the samples already
/// emitted: from a fresh melody, once on each of calls `r`, `2r`, `3r`, ...
/// for rate `r`. After `k` calls the sample count is `(elapsed + k) % r`, and
/// every state keeps the key and sounds one of its piano keys.
pub proof fn lemma_switches_over_run<S: Seed>(run: Seq<MusicMaker<S>>, k: nat)
    requires
        run.len() >= 1,
        run[0].wf(),
        forall|i: int| 0 <= i < run.len() - 1 ==> #[trigger] run[i].steps_to(&run[i + 1]),
        k < run.len(),
    ensures
        switches(run, k) == (run[0].elapsed() + k) / run[0].spec_sample_rate(),
        run[k as int].elapsed() == (run[0].elapsed() + k) % run[0].spec_sample_rate(),
        run[k as int].spec_sample_rate() == run[0].spec_sample_rate(),
        run[k as int].spec_key() == run[0].spec_key(),
        run[k as int].wf(),
        run[k as int].spec_key().keys().contains(run[k as int].spec_current_note()),
    decreases k,
{
    let r = run[0].spec_sample_rate() as int;
    let e0 = run[0].elapsed() as int;
    if k == 0 {
        vstd::arithmetic::div_mod::lemma_small_mod(e0 as nat, r as nat);
        vstd::arithmetic::div_mod::lemma_fundamental_div_mod_converse(e0, r, 0, e0);
    } else {
        lemma_switches_over_run(run, (k - 1) as nat);
        let j = k - 1;
        assert(run[j].steps_to(&run[j + 1]));
        let x = e0 + j;
        let q = x / r;
        let m = x % r;
        vstd::arithmetic::div_mod::lemma_fundamental_div_mod(x, r);
        assert(x == r * q + m);
        vstd::arithmetic::div_mod::lemma_mod_bound(x, r);
        if m + 1 < r {
            vstd::arithmetic::div_mod::lemma_small_mod((m + 1) as nat, r as nat);
            vstd::arithmetic::div_mod::lemma_fundamental_div_mod_converse(x + 1, r, q, m + 1);
        } else {
            vstd::arithmetic::div_mod::lemma_mod_self_0(r);
            assert(x + 1 == (q + 1) * r) by (nonlinear_arith)
                requires
                    x == r * q + m,
                    m + 1 == r,
            ;
            vstd::arithmetic::div_mod::lemma_fundamental_div_mod_converse(x + 1, r, q + 1, 0);
        }
    }
}

} // verus!
