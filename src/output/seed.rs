//! The strategies that pick the next note of a melody from a key.

use crate::theory::key::Key;
use crate::theory::piano_key::PianoKey;
use rand::rngs::{OsRng, SmallRng};
use rand::seq::SliceRandom;
use rand::SeedableRng;
use vstd::prelude::*;

verus! {

#[verifier::external_type_specification]
#[verifier::external_body]
pub struct ExSmallRng(SmallRng);

/// Relies on rand's `SeedableRng::from_rng` for `SmallRng`, drawing the seed
/// from `OsRng`: `None` when the operating system gives no randomness, and
/// otherwise a generator of which nothing is promised.
#[verifier::external_body]
fn rng_from_os() -> (r: Option<SmallRng>) {
    SmallRng::from_rng(OsRng).ok()
}

/// Relies on rand's `SeedableRng::seed_from_u64` for `SmallRng`: a generator
/// whose state depends on the seed alone.
#[verifier::external_body]
fn rng_from_u64(seed: u64) -> (r: SmallRng) {
    SmallRng::seed_from_u64(seed)
}

/// The seed used when the operating system gives no randomness.
pub const FALLBACK_SEED: u64 = 0x5eed;

/// Relies on rand's `SliceRandom::choose`: `None` for an empty slice, and
/// otherwise one of its elements.
#[verifier::external_body]
fn choose_key(keys: &Vec<PianoKey>, rng: &mut SmallRng) -> (r: Option<PianoKey>)
    ensures
        r is None <==> keys@.len() == 0,
        r matches Some(k) ==> keys@.contains(k),
{
    keys.as_slice().choose(rng).copied()
}

/// A key spanning at least one octave has at least one piano key.
pub proof fn lemma_keys_not_empty(key: Key)
    requires
        key.octaves >= 1,
    ensures
        key.keys().len() >= 1,
        key.keys().len() == key.octaves * key.notes().len(),
{
    let n = key.notes().len();
    assert(n >= 1);
    assert(key.octaves * n >= 1) by (nonlinear_arith)
        requires
            key.octaves >= 1,
            n >= 1,
    ;
}

/// A strategy that picks the next note to play.
pub trait Seed {
    /// Whether a pick of `r` from `key` may leave the strategy, in state
    /// `self` before, in state `after`.
    spec fn picks(self, key: Key, after: Self, r: PianoKey) -> bool;

    /// Pick one of the piano keys of `key`.
    fn get_note(&mut self, key: Key) -> (r: PianoKey)
        requires
            key.octaves >= 1,
        ensures
            key.keys().contains(r),
            old(self).picks(key, *final(self), r),
    ;
}

/// Picks every note uniformly at random among the keys of the key.
pub struct Random(SmallRng);

impl Random {
    /// A generator that picks the same melody every time for the same seed.
    pub fn with_seed(seed: u64) -> Random {
        Random(rng_from_u64(seed))
    }
}

impl Default for Random {
    /// A generator seeded from the operating system, or from `FALLBACK_SEED`
    /// when the system gives no randomness.
    fn default() -> Random {
        match rng_from_os() {
            Some(rng) => Random(rng),
            None => Random::with_seed(FALLBACK_SEED),
        }
    }
}

impl Seed for Random {
    /// Any key of the key may be picked, and the generator moves on to an
    /// unknown state.
    open spec fn picks(self, key: Key, after: Random, r: PianoKey) -> bool {
        key.keys().contains(r)
    }

    fn get_note(&mut self, key: Key) -> (r: PianoKey) {
        let keys = key.all_keys();
        proof {
            lemma_keys_not_empty(key);
        }
        match choose_key(&keys, &mut self.0) {
            Some(k) => k,
            // Not reached: the keys are not empty.
            None => keys[0],
        }
    }
}

/// Ascends through the keys of the key one by one, starting again from the
/// bottom after the top.
pub struct Linear(usize);

impl Linear {
    /// The index of the key that is picked next, if it is still in range.
    pub closed spec fn position(&self) -> nat {
        self.0 as nat
    }
}

impl Default for Linear {
    fn default() -> (r: Linear)
        ensures
            r.position() == 0,
    {
        Linear(0)
    }
}

impl Seed for Linear {
    /// The key at the position is picked, or the first key once the position
    /// has run past the top, and the position moves one up from it.
    open spec fn picks(self, key: Key, after: Linear, r: PianoKey) -> bool {
        let p = if self.position() < key.keys().len() {
            self.position()
        } else {
            0
        };
        &&& r == key.keys()[p as int]
        &&& after.position() == p + 1
    }

    fn get_note(&mut self, key: Key) -> (r: PianoKey) {
        let keys = key.all_keys();
        proof {
            lemma_keys_not_empty(key);
        }
        let p = if self.0 < keys.len() {
            self.0
        } else {
            0
        };
        self.0 = p + 1;
        keys[p]
    }
}

} // verus!
