//! The random capability: combat magnitudes and the enemy's intent are drawn
//! from the process-wide thread-local generator.

use vstd::prelude::*;
use rand::Rng;

verus! {

/// Relies on `rand::Rng::gen_range` on `rand::thread_rng()`: a sample from a
/// half-open range lies within it. `gen_range` panics on an empty range, so
/// a non-empty one is required here.
#[verifier::external_body]
fn gen_range_i32(low: i32, high: i32) -> (r: i32)
    requires
        low < high,
    ensures
        low <= r < high,
{
    rand::thread_rng().gen_range(low..high)
}

/// A fresh combat roll: uniformly distributed over 1..=6. Drawn once per
/// resolved action, and once to pick the opponent from the roster.
pub(crate) fn roll() -> (r: i32)
    ensures
        1 <= r <= 6,
{
    gen_range_i32(1, 7)
}

/// A fresh enemy intent selector: uniformly distributed over 1..=3, so the
/// enemy always attacks, blocks or heals and never acts invalidly.
pub(crate) fn intent_roll() -> (r: i32)
    ensures
        1 <= r <= 3,
{
    gen_range_i32(1, 4)
}

} // verus!
