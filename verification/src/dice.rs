//! Chance rolls.
//!
//! A roll is an integer in `0..ROLL_LIMIT`: the top 24 bits of a uniformly
//! drawn 32-bit word. That is the lattice on which a uniform single-precision
//! sample of `[0, 1)` lies, so comparing a roll with a threshold is the exact
//! integer form of comparing such a sample with a probability.

use rand::Rng;
use vstd::prelude::*;

verus! {

/// Number of distinct rolls; a roll `r` stands for the fraction `r / ROLL_LIMIT`.
pub const ROLL_LIMIT: u32 = 0x100_0000;

/// Whether `r` is a roll, i.e. lies in `0..ROLL_LIMIT`.
pub open spec fn valid_roll(r: u32) -> bool {
    r < ROLL_LIMIT
}

/// The threshold that stands for `percent` in a hundred: the least number of
/// rolls whose share of `ROLL_LIMIT` is at least that fraction.
pub open spec fn percent_threshold(percent: int) -> int {
    let p = if percent > 100 { 100 } else { percent };
    (p * (ROLL_LIMIT as int) + 99) / 100
}

/// A Bernoulli probability, held as the number of rolls that succeed.
///
/// A threshold of `0` never succeeds; one of `ROLL_LIMIT` or more always does.
#[derive(Clone, Copy, Debug, PartialEq, Eq, Structural)]
pub struct Chance {
    pub threshold: u32,
}

impl Chance {
    /// Whether the roll `r` counts as a success.
    pub open spec fn hits(self, r: u32) -> bool {
        r < self.threshold
    }

    /// Whether every roll succeeds.
    pub open spec fn is_certain(self) -> bool {
        self.threshold >= ROLL_LIMIT
    }

    /// Whether no roll succeeds.
    pub open spec fn is_impossible(self) -> bool {
        self.threshold == 0
    }

    /// The chance that never succeeds.
    pub fn never() -> (c: Chance)
        ensures
            c.threshold == 0,
            c.is_impossible(),
    {
        Chance { threshold: 0 }
    }

    /// The chance that always succeeds.
    pub fn certain() -> (c: Chance)
        ensures
            c.threshold == ROLL_LIMIT,
            c.is_certain(),
    {
        Chance { threshold: ROLL_LIMIT }
    }

    /// The chance of `percent` in a hundred; values above 100 count as 100.
    pub fn from_percent(percent: u8) -> (c: Chance)
        ensures
            c.threshold == percent_threshold(percent as int),
            percent == 0 ==> c.is_impossible(),
            percent >= 100 ==> c.is_certain(),
    {
        let p: u64 = if percent > 100 { 100 } else { percent as u64 };
        let t: u64 = (p * 0x100_0000 + 99) / 100;
        Chance { threshold: t as u32 }
    }

    /// A chance given directly by its threshold.
    pub fn from_threshold(threshold: u32) -> (c: Chance)
        ensures
            c.threshold == threshold,
    {
        Chance { threshold }
    }

    /// Decides the roll `r`.
    pub fn is_hit(&self, r: u32) -> (hit: bool)
        ensures
            hit == self.hits(r),
    {
        r < self.threshold
    }
}

/// Laws of a chance: a certain one succeeds on every roll, an impossible one on none.
pub proof fn lemma_chance_extremes(c: Chance, r: u32)
    requires
        valid_roll(r),
    ensures
        c.is_certain() ==> c.hits(r),
        c.is_impossible() ==> !c.hits(r),
{
}

/// Draws a 32-bit word from the thread-local generator
/// (`rand::thread_rng()` followed by `Rng::gen::<u32>()`).
///
/// Nothing is claimed of the word: every `u32` may come back. The generator
/// seeds itself from the operating system when a thread first uses it, and
/// panics there if the operating system has no randomness to give.
#[verifier::external_body]
fn random_word() -> (w: u32) {
    rand::thread_rng().gen::<u32>()
}

/// Draws a fresh roll: the roll that a freshly drawn word stands for. Which
/// word comes back is chance, so all that holds of every draw is that the
/// result is a roll; what is made of the word is said by `roll_of_word`.
pub fn roll() -> (r: u32)
    ensures
        valid_roll(r),
{
    roll_of_word(random_word())
}

/// Reduces an arbitrary word to the roll it stands for.
pub fn roll_of_word(w: u32) -> (r: u32)
    ensures
        valid_roll(r),
        r == w >> 8,
{
    assert(w >> 8 < 0x100_0000u32) by (bit_vector);
    w >> 8
}

} // verus!
