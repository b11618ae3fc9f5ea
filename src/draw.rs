use rand::distributions::{Distribution, WeightedError, WeightedIndex};
use rand::rngs::{OsRng, StdRng};
use rand::SeedableRng;
use vstd::prelude::*;

verus! {

/// A weighted index over `u32` weights, ready to be sampled: rand's
/// `WeightedIndex`, built from the weights that `table_weights` names.
#[verifier::external_body]
pub struct WeightTable {
    dist: WeightedIndex<u32>,
}

#[verifier::external_type_specification]
#[verifier::external_body]
pub struct ExWeightedError(WeightedError);

#[verifier::external_type_specification]
#[verifier::external_body]
pub struct ExStdRng(StdRng);

#[verifier::external_type_specification]
#[verifier::external_body]
pub struct ExRandError(rand::Error);

/// The weights that a table was built from, in order.
pub uninterp spec fn table_weights(t: WeightTable) -> Seq<u32>;

/// The sum of a sequence of weights.
pub open spec fn weight_sum(w: Seq<u32>) -> nat
    decreases w.len(),
{
    if w.len() == 0 {
        0
    } else {
        weight_sum(w.drop_last()) + w.last() as nat
    }
}

/// Relies on rand's `WeightedIndex::new`: it fails when there is no weight or
/// all weights are zero, and otherwise keeps the weights it was given. The
/// running total is added up in the weight type, so it must fit.
#[verifier::external_body]
pub(crate) fn weighted_index(weights: &Vec<u32>) -> (r: Result<WeightTable, WeightedError>)
    requires
        weight_sum(weights@) <= u32::MAX,
    ensures
        r.is_ok() == (weights@.len() > 0 && weight_sum(weights@) > 0),
        r.is_ok() ==> table_weights(r.unwrap()) == weights@,
{
    WeightedIndex::new(weights.iter()).map(|dist| WeightTable { dist })
}

/// Relies on rand's `SeedableRng::from_rng` for `StdRng`, seeded from
/// `OsRng`: a failure to read the system's random source comes back as an
/// error.
#[verifier::external_body]
pub(crate) fn seeded_rng() -> (r: Result<StdRng, rand::Error>) {
    StdRng::from_rng(OsRng)
}

/// Relies on `Distribution::sample` of rand's `WeightedIndex`: the index it
/// returns is that of one of the weights, and never of a zero weight.
#[verifier::external_body]
pub(crate) fn draw_index(t: &WeightTable, rng: &mut StdRng) -> (r: usize)
    ensures
        r < table_weights(*t).len(),
        table_weights(*t)[r as int] > 0,
{
    t.dist.sample(rng)
}

} // verus!
