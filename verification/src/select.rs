//! Selection primitives over score keys.
//!
//! Scores reach the verified core as `u64` *keys*: values whose `<` order is
//! the order of the scores they stand for.  The caller that produces the
//! scores is responsible for the order-preserving encoding; everything the
//! policies then do with them — finding a maximal candidate, breaking ties
//! uniformly at random, finding the minimum for the weighted variant's shift
//! — is verified here against the keys' own order.

use vstd::prelude::*;

use crate::rng::PolicyRng;

verus! {

impl PolicyRng {
    /// Picks an index of a maximal score, uniformly at random among the
    /// indices tied at the maximum, in one streaming pass.
    ///
    /// This is reservoir sampling restricted to the maximal class: a strictly
    /// better score resets the running count of tied leaders to one and takes
    /// over; an equal score bumps the count to `n` and takes over with
    /// probability `1/n`.  The contract pins what randomness cannot change:
    /// the result is `Some` exactly for a non-empty input, and the returned
    /// index always carries a score no other index beats.
    pub fn select_by_key(&mut self, scores: &Vec<u64>) -> (r: Option<usize>)
        ensures
            r is Some <==> scores@.len() > 0,
            r matches Some(i) ==> i < scores@.len()
                && forall|j: int| 0 <= j < scores@.len() ==> scores@[j] <= scores@[i as int],
    {
        let mut choice: Option<usize> = None;
        let mut num_optimal: u64 = 0;
        let mut best_so_far: u64 = 0;
        let mut idx: usize = 0;
        while idx < scores.len()
            invariant
                idx <= scores@.len(),
                choice is Some <==> idx > 0,
                choice matches Some(b) ==> b < idx
                    && scores@[b as int] == best_so_far
                    && 1 <= num_optimal <= idx
                    && forall|j: int| 0 <= j < idx ==> scores@[j] <= best_so_far,
            decreases scores@.len() - idx,
        {
            let score = scores[idx];
            match choice {
                None => {
                    choice = Some(idx);
                    num_optimal = 1;
                    best_so_far = score;
                }
                Some(_) => {
                    if score > best_so_far {
                        choice = Some(idx);
                        num_optimal = 1;
                        best_so_far = score;
                    } else if score == best_so_far {
                        num_optimal = num_optimal + 1;
                        if self.draw(num_optimal) == 0 {
                            choice = Some(idx);
                        }
                    }
                }
            }
            idx = idx + 1;
        }
        choice
    }
}

/// The first index of the minimal score: `Some` exactly for a non-empty
/// input, and fully determined — the returned index is minimal, and every
/// earlier index is strictly larger.
///
/// The weighted selection variant uses this to locate the candidate whose
/// score determines the non-negative shift added to every weight.
pub fn min_index(scores: &Vec<u64>) -> (r: Option<usize>)
    ensures
        r is Some <==> scores@.len() > 0,
        r matches Some(i) ==> i < scores@.len()
            && (forall|j: int| 0 <= j < scores@.len() ==> scores@[i as int] <= scores@[j])
            && (forall|j: int| 0 <= j < i ==> scores@[i as int] < scores@[j]),
{
    if scores.len() == 0 {
        return None;
    }
    let mut best: usize = 0;
    let mut idx: usize = 1;
    while idx < scores.len()
        invariant
            1 <= idx <= scores@.len(),
            best < idx,
            forall|j: int| 0 <= j < idx ==> scores@[best as int] <= scores@[j],
            forall|j: int| 0 <= j < best ==> scores@[best as int] < scores@[j],
        decreases scores@.len() - idx,
    {
        if scores[idx] < scores[best] {
            best = idx;
        }
        idx = idx + 1;
    }
    Some(best)
}

} // verus!
