use vstd::prelude::*;

use rand::rngs::SmallRng;
use rand::Rng;
use rand::SeedableRng;

verus! {

#[verifier::external_type_specification]
#[verifier::external_body]
pub struct ExSmallRng(SmallRng);

/// Relies on `rand::SeedableRng::seed_from_u64` for `SmallRng`: a generator whose draws
/// follow from the seed alone.
#[verifier::external_body]
pub(crate) fn seeded_rng(seed: u64) -> SmallRng {
    SmallRng::seed_from_u64(seed)
}

/// Relies on `rand::Rng::gen_ratio`: true with chance `numerator / denominator`. Its
/// `Bernoulli::from_ratio` refuses (and `gen_ratio` panics on) a zero denominator or a
/// numerator above it; a zero numerator never yields true, a numerator equal to the
/// denominator always does.
#[verifier::external_body]
pub(crate) fn draw_ratio(rng: &mut SmallRng, numerator: u32, denominator: u32) -> (r: bool)
    requires
        0 < denominator,
        numerator <= denominator,
    ensures
        numerator == 0 ==> !r,
        numerator == denominator ==> r,
{
    rng.gen_ratio(numerator, denominator)
}

/// Relies on `rand::Rng::gen_range` over `low..high` of `u32`: a value of that range; it
/// panics on an empty range.
#[verifier::external_body]
pub(crate) fn draw_below(rng: &mut SmallRng, low: u32, high: u32) -> (r: u32)
    requires
        low < high,
    ensures
        low <= r < high,
{
    rng.gen_range(low..high)
}

/// Relies on `rand::Rng::gen_range` over `low..=high` of `usize`: a value of that range; it
/// panics on an empty range.
#[verifier::external_body]
pub(crate) fn draw_between(rng: &mut SmallRng, low: usize, high: usize) -> (r: usize)
    requires
        low <= high,
    ensures
        low <= r <= high,
{
    rng.gen_range(low..=high)
}

} // verus!
