//! Pseudo-random draws for the combat engine.
//!
//! The engine's only use of randomness is the Bernoulli gate: "did an event
//! with probability `p` happen?". [`FastRng`] wraps a seeded `fastrand::Rng`
//! together with a count of the draws taken from it. A seeded generator is a
//! pure state machine, so its `n`-th draw is a function of the seed and `n`
//! alone; [`rng_stream`] names that function, which makes every simulation
//! that consumes the generator a deterministic function of its seed.

use vstd::prelude::*;
use crate::fixed::{SCALE, bump};

verus! {

#[verifier::external_type_specification]
#[verifier::external_body]
pub struct ExRng(fastrand::Rng);

/// The value of the `index`-th draw taken from a generator seeded with `seed`.
/// Relies on `fastrand::Rng` being a deterministic state machine: the same
/// seed gives the same draw sequence in every process and on every machine.
pub uninterp spec fn rng_stream(seed: u64, index: u64) -> u64;

/// A seeded pseudo-random generator together with its draw count.
pub struct FastRng {
    inner: fastrand::Rng,
    seed: u64,
    draws: u64,
}

/// A draw passes the Bernoulli gate for a micro-chance `p` when its top 53
/// bits, read as a binary fraction in `[0, 1)`, fall below `p / SCALE`.
pub open spec fn spec_chance(draw: u64, p: u64) -> bool {
    (draw / 2048) * (SCALE as int) < p * 9007199254740992
}

/// The outcome of the Bernoulli gate for micro-chance `p` on the `index`-th
/// draw of the generator seeded with `seed`. Once the draw counter has
/// exhausted `u64`, no further gate passes.
pub open spec fn spec_roll(seed: u64, index: u64, p: u64) -> bool {
    index < u64::MAX && spec_chance(rng_stream(seed, index), p)
}

/// Decide the Bernoulli gate for a concrete draw value.
pub fn chance_hits(draw: u64, p: u64) -> (r: bool)
    ensures
        r == spec_chance(draw, p),
{
    let hi: u64 = draw >> 11;
    proof {
        assert(draw >> 11 == draw / 2048) by (bit_vector);
    }
    (hi as u128) * (SCALE as u128) < (p as u128) * 9007199254740992u128
}

impl FastRng {
    /// The seed this generator was created with.
    pub closed spec fn seed(self) -> u64 {
        self.seed
    }

    /// How many draws have been taken so far.
    pub closed spec fn draws(self) -> u64 {
        self.draws
    }

    /// Create a generator from a seed.
    /// Relies on `fastrand::Rng::with_seed`, which sets the state to `seed`.
    #[verifier::external_body]
    pub fn new(seed: u64) -> (r: Self)
        ensures
            r.seed() == seed,
            r.draws() == 0,
    {
        FastRng { inner: fastrand::Rng::with_seed(seed), seed, draws: 0 }
    }

    /// Take the next draw.
    /// Relies on `fastrand::Rng::u64` over the full range, which steps the
    /// WyRand state once and returns a value determined by the state alone.
    #[verifier::external_body]
    fn next_u64(&mut self) -> (r: u64)
        requires
            old(self).draws() < u64::MAX,
        ensures
            r == rng_stream(old(self).seed(), old(self).draws()),
            final(self).seed() == old(self).seed(),
            final(self).draws() == old(self).draws() + 1,
    {
        self.draws += 1;
        self.inner.u64(..)
    }

    /// Take one draw and decide the Bernoulli gate for micro-chance `p`.
    pub fn roll(&mut self, p: u64) -> (r: bool)
        ensures
            final(self).seed() == old(self).seed(),
            final(self).draws() == bump(old(self).draws()),
            r == spec_roll(old(self).seed(), old(self).draws(), p),
    {
        if self.draws < u64::MAX {
            let d = self.next_u64();
            chance_hits(d, p)
        } else {
            false
        }
    }
}

/// A seed drawn from the host's entropy, for runs that are not replayed.
/// Relies on `rand::random`; nothing is assumed of the value.
#[verifier::external_body]
pub fn random_seed() -> u64 {
    rand::random::<u64>()
}

} // verus!
