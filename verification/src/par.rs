//! Trusted boundary to rayon: the worker pool and the data-parallel map.

use vstd::prelude::*;

use crate::engine::{next_cell, sec_transition, spec_next_cell, spec_step};
use crate::rule::RuleTable;
use rayon::iter::IntoParallelIterator;
use rayon::iter::ParallelIterator;

verus! {

#[verifier::external_type_specification]
#[verifier::external_body]
pub struct ExThreadPool(rayon::ThreadPool);

/// Relies on rayon's ThreadPoolBuilder: `num_threads` sets the number of
/// workers and `build` returns the pool, or an error, mapped here to `None`.
#[verifier::external_body]
pub(crate) fn build_pool(n_workers: usize) -> (r: Option<rayon::ThreadPool>) {
    rayon::ThreadPoolBuilder::new().num_threads(n_workers).build().ok()
}

/// Relies on rayon's ThreadPool::install: it executes the closure within
/// the pool and returns the closure's result. The closure only calls the
/// verified sequential transition.
#[verifier::external_body]
pub(crate) fn install_transition(
    pool: &rayon::ThreadPool,
    s_univ: usize,
    univ: &Vec<bool>,
    rule: &RuleTable,
) -> (r: Vec<bool>)
    requires
        univ@.len() == s_univ,
    ensures
        r@ == spec_step(*rule, univ@),
{
    pool.install(|| sec_transition(s_univ, univ, rule))
}

/// Relies on rayon's parallel range iterator: `map` applies the closure to
/// every index of 0..s_univ and `collect` keeps index order. The closure
/// only calls the verified per-position transition.
#[verifier::external_body]
pub(crate) fn par_map_transition(s_univ: usize, univ: &Vec<bool>, rule: &RuleTable) -> (r: Vec<bool>)
    requires
        univ@.len() == s_univ,
    ensures
        r@.len() == s_univ,
        forall|i: int| 0 <= i < s_univ ==> r@[i] == spec_next_cell(*rule, univ@, i),
{
    (0..s_univ).into_par_iter().map(|i| next_cell(i, s_univ, univ, rule)).collect()
}

} // verus!
