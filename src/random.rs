//! Random selection over pools and drop tables, driven by an injected,
//! seedable random source.

use rand::rngs::StdRng;
use rand::{Rng, SeedableRng};
use vstd::prelude::*;

verus! {

/// A probability of one, in parts per million.
pub const PROBABILITY_SCALE: u32 = 1_000_000;

#[verifier::external_type_specification]
#[verifier::external_body]
pub struct ExStdRng(StdRng);

/// Relies on `rand::SeedableRng::seed_from_u64` for `StdRng`: builds a
/// generator whose stream is fixed by the seed.
#[verifier::external_body]
fn seeded_rng(seed: u64) -> (r: StdRng) {
    StdRng::seed_from_u64(seed)
}

/// Relies on `rand::Rng::gen_range` over `0..bound`: a value in the half-open
/// range, which must not be empty.
#[verifier::external_body]
fn gen_below(rng: &mut StdRng, bound: usize) -> (r: usize)
    requires
        bound > 0,
    ensures
        r < bound,
{
    rng.gen_range(0..bound)
}

/// A source of random draws, owned by the caller and handed to each
/// selection so that runs can be reproduced from a seed.
pub struct RandomSource {
    rng: StdRng,
}

impl RandomSource {
    /// A source whose draws are fixed by `seed`.
    pub fn from_seed(seed: u64) -> (r: RandomSource) {
        RandomSource { rng: seeded_rng(seed) }
    }

    /// A uniform draw from `0..bound`.
    pub fn below(&mut self, bound: usize) -> (r: usize)
        requires
            bound > 0,
        ensures
            r < bound,
    {
        gen_below(&mut self.rng, bound)
    }
}

/// The values whose draw fell under their probability: entry `i` is kept
/// when `draws[i] < entries[i].1`, and the kept values stay in order.
pub open spec fn kept_by_draws<T>(entries: Seq<(T, u32)>, draws: Seq<u32>) -> Seq<T>
    decreases entries.len(),
{
    if entries.len() == 0 {
        Seq::empty()
    } else {
        let rest = kept_by_draws(entries.drop_last(), draws);
        if draws[entries.len() - 1] < entries.last().1 {
            rest.push(entries.last().0)
        } else {
            rest
        }
    }
}

/// Each draw is a possible outcome of a uniform draw over the probability scale.
pub open spec fn valid_draws(draws: Seq<u32>, n: nat) -> bool {
    &&& draws.len() == n
    &&& forall|i: int| 0 <= i < draws.len() ==> draws[i] < PROBABILITY_SCALE
}

/// The values behind a sequence of references.
pub open spec fn derefs<T>(r: Seq<&T>) -> Seq<T> {
    r.map_values(|x: &T| *x)
}

/// Keeps the value of each entry whose draw is under its probability.
pub fn select_with_draws<'a, T>(entries: &'a [(T, u32)], draws: &[u32]) -> (r: Vec<&'a T>)
    requires
        draws@.len() == entries@.len(),
    ensures
        derefs(r@) == kept_by_draws(entries@, draws@),
{
    let mut out: Vec<&'a T> = Vec::new();
    let mut i: usize = 0;
    while i < entries.len()
        invariant
            i <= entries@.len(),
            draws@.len() == entries@.len(),
            derefs(out@) =~= kept_by_draws(entries@.subrange(0, i as int), draws@),
        decreases entries@.len() - i,
    {
        proof {
            assert(entries@.subrange(0, i + 1).drop_last() =~= entries@.subrange(0, i as int));
        }
        if draws[i] < entries[i].1 {
            out.push(&entries[i].0);
        }
        i = i + 1;
    }
    assert(entries@.subrange(0, entries@.len() as int) =~= entries@);
    out
}

/// The values of the entries, in order.
pub open spec fn entry_values<T>(entries: Seq<(T, u32)>) -> Seq<T> {
    entries.map_values(|e: (T, u32)| e.0)
}

/// When every probability is one, every entry is kept, whatever the draws.
pub proof fn lemma_certain_entries_all_kept<T>(entries: Seq<(T, u32)>, draws: Seq<u32>)
    requires
        valid_draws(draws, entries.len()),
        forall|i: int| 0 <= i < entries.len() ==> entries[i].1 == PROBABILITY_SCALE,
    ensures
        kept_by_draws(entries, draws) == entry_values(entries),
    decreases entries.len(),
{
    if entries.len() > 0 {
        let rest = entries.drop_last();
        lemma_certain_entries_all_kept(rest, draws.subrange(0, rest.len() as int));
        lemma_kept_reads_only_own_draws(rest, draws, draws.subrange(0, rest.len() as int));
        assert(entry_values(entries) =~= entry_values(rest).push(entries.last().0));
    } else {
        assert(entry_values(entries) =~= Seq::<T>::empty());
    }
}

/// When every probability is zero, no entry is kept, whatever the draws.
pub proof fn lemma_impossible_entries_none_kept<T>(entries: Seq<(T, u32)>, draws: Seq<u32>)
    requires
        draws.len() == entries.len(),
        forall|i: int| 0 <= i < entries.len() ==> entries[i].1 == 0,
    ensures
        kept_by_draws(entries, draws) == Seq::<T>::empty(),
    decreases entries.len(),
{
    if entries.len() > 0 {
        let rest = entries.drop_last();
        lemma_impossible_entries_none_kept(rest, draws.subrange(0, rest.len() as int));
        lemma_kept_reads_only_own_draws(rest, draws, draws.subrange(0, rest.len() as int));
    }
}

/// Which entries are kept depends only on the draws at their own positions.
proof fn lemma_kept_reads_only_own_draws<T>(entries: Seq<(T, u32)>, d1: Seq<u32>, d2: Seq<u32>)
    requires
        d1.len() >= entries.len(),
        d2.len() >= entries.len(),
        forall|i: int| 0 <= i < entries.len() ==> d1[i] == d2[i],
    ensures
        kept_by_draws(entries, d1) == kept_by_draws(entries, d2),
    decreases entries.len(),
{
    if entries.len() > 0 {
        lemma_kept_reads_only_own_draws(entries.drop_last(), d1, d2);
    }
}

/// Every probability lies within the scale.
pub open spec fn probabilities_valid<T>(entries: Seq<(T, u32)>) -> bool {
    forall|i: int| 0 <= i < entries.len() ==> entries[i].1 <= PROBABILITY_SCALE
}

/// Picks one element of `pool`, each with the same chance; nothing from an
/// empty pool.
pub fn select_uniform<'a, T>(pool: &'a [T], rng: &mut RandomSource) -> (r: Option<&'a T>)
    ensures
        r is None <==> pool@.len() == 0,
        r matches Some(x) ==> exists|i: int| 0 <= i < pool@.len() && *x == pool@[i],
        pool@.len() == 1 ==> r == Some(&pool@[0]),
{
    if pool.len() == 0 {
        None
    } else {
        let i = rng.below(pool.len());
        Some(&pool[i])
    }
}

/// Draws once for each entry and keeps the value of every entry whose draw
/// falls under its probability; entries are decided independently.
pub fn select_independent_trials<'a, T>(entries: &'a [(T, u32)], rng: &mut RandomSource) -> (r: Vec<&'a T>)
    ensures
        exists|draws: Seq<u32>|
            valid_draws(draws, entries@.len()) && derefs(r@) == kept_by_draws(entries@, draws),
{
    let mut draws: Vec<u32> = Vec::new();
    let mut i: usize = 0;
    while i < entries.len()
        invariant
            i <= entries@.len(),
            valid_draws(draws@, i as nat),
        decreases entries@.len() - i,
    {
        let d = rng.below(PROBABILITY_SCALE as usize) as u32;
        draws.push(d);
        i = i + 1;
    }
    let r = select_with_draws(entries, draws.as_slice());
    assert(valid_draws(draws@, entries@.len()));
    r
}

/// Picks one entry's value, each entry with the same chance whatever its
/// probability; nothing from an empty table.
pub fn select_single_weighted<'a, T>(entries: &'a [(T, u32)], rng: &mut RandomSource) -> (r: Option<&'a T>)
    ensures
        r is None <==> entries@.len() == 0,
        r matches Some(x) ==> exists|i: int| 0 <= i < entries@.len() && *x == entries@[i].0,
        entries@.len() == 1 ==> r == Some(&entries@[0].0),
{
    match select_uniform(entries, rng) {
        Some(e) => Some(&e.0),
        None => None,
    }
}

} // verus!
