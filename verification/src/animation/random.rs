use rand::rngs::StdRng;
use rand::RngExt;
use vstd::prelude::*;

verus! {

/// The seedable standard random number generator of `rand`.
#[verifier::external_type_specification]
#[verifier::external_body]
pub struct ExStdRng(StdRng);

/// `RngExt::random_ratio(1, 2)`: a fair coin. rand builds the same
/// Bernoulli distribution for the ratio 1/2 as for the probability 0.5. The
/// outcome depends on the generator's state, so nothing is stated of it.
#[verifier::external_body]
pub(crate) fn coin_flip(rng: &mut StdRng) -> bool {
    rng.random_ratio(1, 2)
}

/// `RngExt::random_range(low..=high)` on `u16`: rand documents a value of
/// the inclusive range, and panics only on an empty range, which `requires`
/// rules out. Which value comes out depends on the generator's state.
#[verifier::external_body]
pub(crate) fn random_u16_between(rng: &mut StdRng, low: u16, high: u16) -> (r: u16)
    requires
        low <= high,
    ensures
        low <= r <= high,
{
    rng.random_range(low..=high)
}

/// `RngExt::random_range(0..bound)` on `u8`: rand documents a value of the
/// half-open range, and panics only on an empty range, which `requires`
/// rules out. Which value comes out depends on the generator's state.
#[verifier::external_body]
pub(crate) fn random_u8_below(rng: &mut StdRng, bound: u8) -> (r: u8)
    requires
        0 < bound,
    ensures
        r < bound,
{
    rng.random_range(0..bound)
}

/// `RngExt::random_range(0..bound)` on `usize`: rand documents a value of
/// the half-open range, and panics only on an empty range, which `requires`
/// rules out. Which value comes out depends on the generator's state.
#[verifier::external_body]
pub(crate) fn random_usize_below(rng: &mut StdRng, bound: usize) -> (r: usize)
    requires
        0 < bound,
    ensures
        r < bound,
{
    rng.random_range(0..bound)
}

} // verus!
