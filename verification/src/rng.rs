use vstd::prelude::*;

verus! {

/// A source of uniformly distributed integers. The simulation draws all of
/// its randomness through this trait, so a host can inject real entropy
/// while tests inject a seeded, reproducible generator.
pub trait RandomSource {
    /// Draws the next value from the half-open range `low..high`.
    fn next_in(&mut self, low: i64, high: i64) -> (r: i64)
        requires
            low < high,
        ensures
            low <= r < high,
    ;
}

/// A deterministic linear congruential generator, for reproducible runs.
pub struct Lcg {
    state: u64,
}

impl Lcg {
    /// Builds a generator whose whole output sequence is fixed by `seed`.
    pub fn new(seed: u64) -> Lcg {
        Lcg { state: seed }
    }
}

impl RandomSource for Lcg {
    fn next_in(&mut self, low: i64, high: i64) -> (r: i64) {
        let mixed: u128 = (self.state as u128) * 6364136223846793005u128 + 1442695040888963407u128;
        self.state = #[verifier::truncate] (mixed as u64);
        let span: i128 = (high as i128) - (low as i128);
        let offset: i128 = (self.state as i128) % span;
        assert(0 <= offset < span);
        let drawn: i128 = (low as i128) + offset;
        assert(low <= drawn < high);
        drawn as i64
    }
}

/// A generator backed by the host's entropy.
pub struct ThreadRandom {
}

impl ThreadRandom {
    pub fn new() -> ThreadRandom {
        ThreadRandom {  }
    }
}

/// Relies on rand::Rng::gen_range: a uniform sample from the half-open
/// range `low..high`, which panics only on an empty range.
#[verifier::external_body]
fn sample_uniform(low: i64, high: i64) -> (r: i64)
    requires
        low < high,
    ensures
        low <= r < high,
{
    rand::Rng::gen_range(&mut rand::thread_rng(), low..high)
}

impl RandomSource for ThreadRandom {
    fn next_in(&mut self, low: i64, high: i64) -> (r: i64) {
        sample_uniform(low, high)
    }
}

} // verus!
