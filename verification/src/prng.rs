//! Draws from the ChaCha8 stream of `rand_chacha`.
//!
//! A stream is fixed by the 64-bit seed it was made from, and a place in it by the
//! offset in 32-bit words from its start. A draw is therefore a function of seed,
//! offset and the parameters of the draw: the same values give the same outcome
//! and the same new offset. Each function below makes the generator from the seed,
//! moves it to the offset, draws once and reads the offset back.

use vstd::prelude::*;
use rand::{Rng, SeedableRng};
use rand_chacha::ChaCha8Rng;

verus! {

/// What `Rng::gen_ratio(numerator, denominator)` returns on the stream of `seed` at
/// `position`, and the offset at which it leaves the stream.
pub uninterp spec fn chacha8_ratio(seed: u64, position: u128, numerator: u32, denominator: u32) -> (bool, u128);

/// What `Rng::gen_range(low..=high)` returns on the stream of `seed` at `position`,
/// and the offset at which it leaves the stream.
pub uninterp spec fn chacha8_between(seed: u64, position: u128, low: u64, high: u64) -> (u64, u128);

/// A draw that comes out true with probability `numerator / denominator`. It is
/// always true where the two are equal and never true where the numerator is zero;
/// in between, the stream decides.
pub open spec fn ratio_draw(seed: u64, position: u128, numerator: u32, denominator: u32) -> (bool, u128) {
    let drawn = chacha8_ratio(seed, position, numerator, denominator);
    if numerator == denominator {
        (true, drawn.1)
    } else if numerator == 0 {
        (false, drawn.1)
    } else {
        drawn
    }
}

/// `Rng::gen_ratio` on a `ChaCha8Rng` made by `seed_from_u64(seed)` and moved to
/// `position` by `set_word_pos`; the new offset is what `get_word_pos` reports.
/// `gen_ratio` samples `Bernoulli::from_ratio`, which is constantly true where
/// numerator and denominator are equal, and compares a drawn `u64` with a threshold
/// of zero where the numerator is zero.
#[verifier::external_body]
pub(crate) fn draw_ratio(seed: u64, position: u128, numerator: u32, denominator: u32) -> (r: (bool, u128))
    requires
        numerator <= denominator,
        denominator > 0,
    ensures
        r == ratio_draw(seed, position, numerator, denominator),
        r.1 == chacha8_ratio(seed, position, numerator, denominator).1,
{
    let mut rng = ChaCha8Rng::seed_from_u64(seed);
    rng.set_word_pos(position);
    let hit = rng.gen_ratio(numerator, denominator);
    (hit, rng.get_word_pos())
}

/// `Rng::gen_range(low..=high)` on a `ChaCha8Rng` made by `seed_from_u64(seed)` and
/// moved to `position` by `set_word_pos`; the new offset is what `get_word_pos`
/// reports. The value lies in the range.
#[verifier::external_body]
pub(crate) fn draw_between(seed: u64, position: u128, low: u64, high: u64) -> (r: (u64, u128))
    requires
        low <= high,
    ensures
        r == chacha8_between(seed, position, low, high),
        low <= r.0 <= high,
{
    let mut rng = ChaCha8Rng::seed_from_u64(seed);
    rng.set_word_pos(position);
    let value = rng.gen_range(low..=high);
    (value, rng.get_word_pos())
}

} // verus!
