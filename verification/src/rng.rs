//! Per-thread selection randomness.
//!
//! Every probabilistic choice the verified selection code makes goes
//! through [`PolicyRng`]: a seeded pseudo-random generator owned by one
//! worker thread.  The generator itself comes from the `rand` crate and is
//! opaque to verification; the one operation the verified code needs from
//! it — a uniform draw below a bound — is stated as a contract on a small
//! trusted wrapper.

use vstd::prelude::*;

verus! {

#[verifier::external_type_specification]
#[verifier::external_body]
pub struct ExStdRng(rand::rngs::StdRng);

/// Relies on rand's `StdRng::seed_from_u64`: builds a generator from the
/// given seed deterministically and does not panic.
#[verifier::external_body]
fn seed_rng(seed: u64) -> rand::rngs::StdRng {
    <rand::rngs::StdRng as rand::SeedableRng>::seed_from_u64(seed)
}

/// Relies on `rand::random`: draws one value from the thread-local
/// generator, seeded by the process-wide entropy source.
#[verifier::external_body]
fn random_seed() -> u64 {
    rand::random()
}

/// Relies on rand's `Rng::gen_range` on the range `0..n`: the result is
/// uniform in that range, and the call panics only when the range is empty,
/// which the precondition rules out.
#[verifier::external_body]
fn draw_below(rng: &mut rand::rngs::StdRng, n: u64) -> (r: u64)
    requires
        1 <= n,
    ensures
        r < n,
{
    rand::Rng::gen_range(rng, 0..n)
}

/// A worker thread's private source of randomness for tie-breaking.
///
/// Exclusively owned by its thread; never shared, never synchronized.
pub struct PolicyRng {
    rng: rand::rngs::StdRng,
}

impl PolicyRng {
    /// Builds a generator from an explicit seed, for reproducible runs.
    pub fn new(seed: u64) -> Self {
        PolicyRng { rng: seed_rng(seed) }
    }

    /// Draws a value uniformly below `n`.  Nothing more is promised of the
    /// result: callers must be correct whichever value comes back.
    pub(crate) fn draw(&mut self, n: u64) -> (r: u64)
        requires
            1 <= n,
        ensures
            r < n,
    {
        draw_below(&mut self.rng, n)
    }
}

impl Default for PolicyRng {
    /// Seeds the generator from the process-wide random source; runs that
    /// must be reproducible should use [`PolicyRng::new`] instead.
    fn default() -> Self {
        PolicyRng::new(random_seed())
    }
}

} // verus!
