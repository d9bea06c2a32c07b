//! Drop tables: values paired with the probability that each drops.

use crate::random::{
    derefs, kept_by_draws, probabilities_valid, select_independent_trials,
    select_single_weighted, valid_draws, RandomSource, PROBABILITY_SCALE,
};
use vstd::prelude::*;

verus! {

/// Why a drop table could not be built.
#[derive(Clone, Copy, PartialEq, Eq, Debug, Structural)]
pub enum DropTableError {
    /// The entry at `index` has a probability above one.
    ProbabilityAboveOne { index: usize },
}

/// A table of drops, each a value with its probability in parts per million.
pub struct DropTable<T> {
    drops: Vec<(T, u32)>,
}

impl<T> View for DropTable<T> {
    type V = Seq<(T, u32)>;

    closed spec fn view(&self) -> Seq<(T, u32)> {
        self.drops@
    }
}

impl<T> DropTable<T> {
    #[verifier::type_invariant]
    spec fn inv(self) -> bool {
        probabilities_valid(self.drops@)
    }

    /// A table of the given drops. Fails on the first entry whose probability
    /// is above one.
    pub fn new(drops: Vec<(T, u32)>) -> (r: Result<DropTable<T>, DropTableError>)
        ensures
            r is Ok <==> probabilities_valid(drops@),
            r matches Ok(t) ==> t@ == drops@,
            r matches Err(DropTableError::ProbabilityAboveOne { index }) ==> {
                &&& index < drops@.len()
                &&& drops@[index as int].1 > PROBABILITY_SCALE
                &&& forall|j: int| 0 <= j < index ==> drops@[j].1 <= PROBABILITY_SCALE
            },
    {
        let mut i: usize = 0;
        while i < drops.len()
            invariant
                i <= drops@.len(),
                forall|j: int| 0 <= j < i ==> drops@[j].1 <= PROBABILITY_SCALE,
            decreases drops@.len() - i,
        {
            if drops[i].1 > PROBABILITY_SCALE {
                return Err(DropTableError::ProbabilityAboveOne { index: i });
            }
            i = i + 1;
        }
        Ok(DropTable { drops })
    }

    /// Draws for every entry on its own and returns the values that drop, in
    /// table order: each entry drops when its draw falls under its probability.
    pub fn select_drops(&self, rng: &mut RandomSource) -> (r: Vec<&T>)
        ensures
            exists|draws: Seq<u32>|
                valid_draws(draws, self@.len()) && derefs(r@) == kept_by_draws(self@, draws),
    {
        let entries = self.drops.as_slice();
        assert(entries@ == self@);
        select_independent_trials(entries, rng)
    }

    /// Picks one entry's value, each entry with the same chance whatever its
    /// probability; nothing from an empty table.
    pub fn select_single_drop(&self, rng: &mut RandomSource) -> (r: Option<&T>)
        ensures
            r is None <==> self@.len() == 0,
            r matches Some(x) ==> exists|i: int| 0 <= i < self@.len() && *x == self@[i].0,
            self@.len() == 1 ==> r == Some(&self@[0].0),
    {
        let entries = self.drops.as_slice();
        assert(entries@ == self@);
        select_single_weighted(entries, rng)
    }
}

} // verus!
