//! The seedable source of random draws.

use rand::rngs::StdRng;
use rand::Rng;
use rand::SeedableRng;
use vstd::prelude::*;

verus! {

/// Declares `rand::rngs::StdRng`, the generator behind a `RandomSource`.
/// Nothing is known of what a value of it holds.
#[verifier::external_type_specification]
#[verifier::external_body]
pub struct ExStdRng(rand::rngs::StdRng);

/// What a `RandomSource` stands for: the seed that it was made from, the
/// ranges `(low, high)` that were asked of it since, and the values that it
/// handed out for them, the oldest first. The value `drawn[i]` answers the
/// range `asked[i]`.
pub struct RandomModel {
    pub seed: u64,
    pub asked: Seq<(i64, i64)>,
    pub drawn: Seq<i64>,
}

/// A seedable source of random draws. It keeps a record of the seed that it
/// was made from, of the ranges asked of it and of the values handed out.
/// The generator itself is opaque: which value answers a range is known only
/// to lie in that range.
pub struct RandomSource {
    generator: StdRng,
    seed: Ghost<u64>,
    asked: Ghost<Seq<(i64, i64)>>,
    drawn: Ghost<Seq<i64>>,
}

impl View for RandomSource {
    type V = RandomModel;

    closed spec fn view(&self) -> RandomModel {
        RandomModel { seed: self.seed@, asked: self.asked@, drawn: self.drawn@ }
    }
}

/// Calls `SeedableRng::seed_from_u64` for `StdRng`. Nothing is claimed of the
/// generator that it returns.
#[verifier::external_body]
fn seeded_generator(seed: u64) -> StdRng {
    StdRng::seed_from_u64(seed)
}

/// Calls `Rng::gen_range` on the inclusive range `low..=high`. The range is
/// not empty, so the call does not panic; the value drawn lies in the range.
/// Which value of the range comes out is left open.
#[verifier::external_body]
fn draw_inclusive(generator: &mut StdRng, low: i64, high: i64) -> (drawn: i64)
    requires
        low <= high,
    ensures
        low <= drawn <= high,
{
    generator.gen_range(low..=high)
}

impl RandomSource {
    /// A source made from `seed`. Nothing was asked of it yet, and it has
    /// handed out nothing.
    pub fn from_seed(seed: u64) -> (source: RandomSource)
        ensures
            source@ == (RandomModel { seed, asked: Seq::empty(), drawn: Seq::empty() }),
    {
        RandomSource {
            generator: seeded_generator(seed),
            seed: Ghost(seed),
            asked: Ghost(Seq::empty()),
            drawn: Ghost(Seq::empty()),
        }
    }

    /// Hands out the next value, drawn from `low..=high`, and records the
    /// range as the newest one asked and the value as the newest one handed
    /// out.
    pub(crate) fn draw(&mut self, low: i64, high: i64) -> (drawn: i64)
        requires
            low <= high,
        ensures
            low <= drawn <= high,
            final(self)@.seed == old(self)@.seed,
            final(self)@.asked == old(self)@.asked.push((low, high)),
            final(self)@.drawn == old(self)@.drawn.push(drawn),
    {
        let drawn: i64 = draw_inclusive(&mut self.generator, low, high);
        self.asked = Ghost(self.asked@.push((low, high)));
        self.drawn = Ghost(self.drawn@.push(drawn));
        drawn
    }
}

} // verus!
