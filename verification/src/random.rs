use rand::Rng;
use rand::SeedableRng;
use rand_chacha::ChaCha8Rng;
use vstd::prelude::*;

verus! {

/// Makes `rand_chacha::ChaCha8Rng` known to Verus as an opaque type: nothing about its
/// state is visible to the proofs.
#[verifier::external_type_specification]
#[verifier::external_body]
pub struct ExChaCha8Rng(ChaCha8Rng);

/// The generator that `SeedableRng::seed_from_u64` makes of `seed` for
/// `rand_chacha::ChaCha8Rng`: it expands the seed into a full key and builds the
/// generator from that alone, so the same seed always gives the same generator.
pub uninterp spec fn seeded_chacha(seed: u64) -> ChaCha8Rng;

/// Seeds a `rand_chacha::ChaCha8Rng` through `SeedableRng::seed_from_u64`.
/// Claimed: the generator is `seeded_chacha(seed)`, a function of the seed alone.
/// What it then draws is not stated.
#[verifier::external_body]
fn chacha_from_seed(seed: u64) -> (g: ChaCha8Rng)
    ensures
        g == seeded_chacha(seed),
{
    ChaCha8Rng::seed_from_u64(seed)
}

/// Draws from `rand::Rng::random_range` on the inclusive range `low..=high`.
/// Claimed, as rand's documentation says: the value lies in the range. Which value
/// comes out depends on the generator's state and is not stated. The range is not
/// empty, so the call does not panic.
#[verifier::external_body]
fn random_usize_inclusive(rng: &mut ChaCha8Rng, low: usize, high: usize) -> (r: usize)
    requires
        low <= high,
    ensures
        low <= r <= high,
{
    rng.random_range(low..=high)
}

/// The game's single source of randomness.
pub struct RandomSource(pub ChaCha8Rng);

impl RandomSource {
    /// A generator seeded with `seed`, so that a session can be replayed.
    pub fn from_seed(seed: u64) -> (r: RandomSource)
        ensures
            r.0 == seeded_chacha(seed),
    {
        RandomSource(chacha_from_seed(seed))
    }
}

/// A tuning value with a symmetric random spread around it.
#[derive(Clone, Copy, Debug, PartialEq)]
pub struct WithJitter<T> {
    pub value: T,
    pub jitter: T,
}

impl WithJitter<usize> {
    /// The smallest value a sample can take: `value - jitter`, or zero when the jitter
    /// is larger than the value.
    pub open spec fn low(&self) -> int {
        if self.jitter <= self.value {
            self.value - self.jitter
        } else {
            0
        }
    }

    /// The largest value a sample can take.
    pub open spec fn high(&self) -> int {
        self.value + self.jitter
    }

    /// A random count between `value - jitter` (not below zero) and `value + jitter`,
    /// both included.
    pub fn sample(&self, rng: &mut RandomSource) -> (r: usize)
        requires
            self.value + self.jitter <= usize::MAX,
        ensures
            self.low() <= r <= self.high(),
    {
        let low = self.value.saturating_sub(self.jitter);
        let high = self.value + self.jitter;
        random_usize_inclusive(&mut rng.0, low, high)
    }
}

} // verus!
