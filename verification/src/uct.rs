//! The UCT selection rule.
//!
//! UCT scores a candidate edge in two tiers: an edge whose visit count is
//! zero scores unboundedly high (it must be explored before any comparison
//! of empirical means can be trusted), and a visited edge scores by the UCB
//! bound.  The bound itself is real-valued and is computed by the caller,
//! who hands it in as an order-preserving `score_key`; this module holds the
//! part of the rule that does not depend on the numbers themselves — the
//! two-tier order, the sibling visit sum, and the randomized argmax — and
//! verifies it.

use vstd::prelude::*;

use crate::rng::PolicyRng;

verus! {

/// One candidate edge as a single selection pass sees it: the visit count
/// read from the shared statistics, and the key of its score.
///
/// `score_key` orders candidates with `visits > 0` among themselves and is
/// ignored for unvisited candidates, whose score outranks every key.
#[derive(Clone, Copy, PartialEq, Eq, Structural, Debug)]
pub struct Candidate {
    pub visits: u64,
    pub score_key: u64,
}

/// Candidate `a` strictly outranks candidate `b`: an unvisited candidate
/// outranks every visited one, and two visited candidates compare by key.
pub open spec fn uct_better(a: Candidate, b: Candidate) -> bool {
    if a.visits == 0 {
        b.visits != 0
    } else {
        b.visits != 0 && a.score_key > b.score_key
    }
}

/// Candidates `a` and `b` are tied: both unvisited, or both visited with
/// equal keys.
pub open spec fn uct_tied(a: Candidate, b: Candidate) -> bool {
    if a.visits == 0 {
        b.visits == 0
    } else {
        b.visits != 0 && a.score_key == b.score_key
    }
}

/// The sum of a sequence of visit counts, as an unbounded integer.
pub open spec fn visit_sum(s: Seq<u64>) -> int
    decreases s.len(),
{
    if s.len() == 0 {
        0
    } else {
        visit_sum(s.drop_last()) + s.last()
    }
}

fn better(a: &Candidate, b: &Candidate) -> (r: bool)
    ensures
        r == uct_better(*a, *b),
{
    if a.visits == 0 {
        b.visits != 0
    } else {
        b.visits != 0 && a.score_key > b.score_key
    }
}

fn tied(a: &Candidate, b: &Candidate) -> (r: bool)
    ensures
        r == uct_tied(*a, *b),
{
    if a.visits == 0 {
        b.visits == 0
    } else {
        b.visits != 0 && a.score_key == b.score_key
    }
}

/// A visit sum over a prefix never exceeds the sum over the whole sequence,
/// since visit counts are non-negative.
proof fn lemma_visit_sum_prefix(s: Seq<u64>, n: int)
    requires
        0 <= n <= s.len(),
    ensures
        visit_sum(s.take(n)) <= visit_sum(s),
    decreases s.len() - n,
{
    if n == s.len() {
        assert(s.take(n) =~= s);
    } else {
        assert(s.take(n + 1).drop_last() =~= s.take(n));
        lemma_visit_sum_prefix(s, n + 1);
    }
}

/// The parent's effective visit count: the sum of the candidates' visit
/// counts, read in a first pass over the candidate edges.  The parent has
/// no counter of its own; this sum *is* its visit count by definition (the
/// prior-weighted variant adds one for the parent's own visit).  Returns
/// `None` exactly when the sum does not fit in a `u64`.
pub fn parent_visits(visits: &Vec<u64>) -> (r: Option<u64>)
    ensures
        r matches Some(s) ==> s == visit_sum(visits@),
        r is None ==> visit_sum(visits@) > u64::MAX,
{
    let mut acc: u64 = 0;
    let mut idx: usize = 0;
    while idx < visits.len()
        invariant
            idx <= visits@.len(),
            acc == visit_sum(visits@.take(idx as int)),
        decreases visits@.len() - idx,
    {
        let v = visits[idx];
        proof {
            assert(visits@.take(idx + 1).drop_last() =~= visits@.take(idx as int));
            assert(visits@.take(idx + 1).last() == visits@[idx as int]);
        }
        if v > u64::MAX - acc {
            proof {
                lemma_visit_sum_prefix(visits@, idx + 1);
            }
            return None;
        }
        acc = acc + v;
        idx = idx + 1;
    }
    proof {
        assert(visits@.take(visits@.len() as int) =~= visits@);
    }
    Some(acc)
}

/// The UCT choice among the candidate edges at a node: an index whose
/// candidate no other candidate outranks, drawn uniformly at random among
/// the tied leaders; `None` exactly for an empty candidate set.
///
/// The last clause is the exploration guarantee: whenever at least one
/// candidate is unvisited, the chosen candidate is unvisited — a visited
/// edge is never selected past an unexplored sibling, whatever the visited
/// edges' scores.
pub fn choose_child(candidates: &Vec<Candidate>, rng: &mut PolicyRng) -> (r: Option<usize>)
    ensures
        r is Some <==> candidates@.len() > 0,
        r matches Some(i) ==> i < candidates@.len()
            && forall|j: int| 0 <= j < candidates@.len()
                ==> !uct_better(candidates@[j], candidates@[i as int]),
        (exists|j: int| 0 <= j < candidates@.len() && candidates@[j].visits == 0)
            ==> (r matches Some(i) && candidates@[i as int].visits == 0),
{
    let mut choice: Option<usize> = None;
    let mut num_optimal: u64 = 0;
    let mut idx: usize = 0;
    while idx < candidates.len()
        invariant
            idx <= candidates@.len(),
            choice is Some <==> idx > 0,
            choice matches Some(b) ==> b < idx
                && 1 <= num_optimal <= idx
                && forall|j: int| 0 <= j < idx
                    ==> !uct_better(candidates@[j], candidates@[b as int]),
        decreases candidates@.len() - idx,
    {
        let c = candidates[idx];
        match choice {
            None => {
                choice = Some(idx);
                num_optimal = 1;
            }
            Some(b) => {
                let best = candidates[b];
                if better(&c, &best) {
                    choice = Some(idx);
                    num_optimal = 1;
                } else if tied(&c, &best) {
                    num_optimal = num_optimal + 1;
                    if rng.draw(num_optimal) == 0 {
                        choice = Some(idx);
                    }
                }
            }
        }
        idx = idx + 1;
    }
    proof {
        if exists|j: int| 0 <= j < candidates@.len() && candidates@[j].visits == 0 {
            let j = choose|j: int| 0 <= j < candidates@.len() && candidates@[j].visits == 0;
            if let Some(b) = choice {
                assert(!uct_better(candidates@[j], candidates@[b as int]));
            }
        }
    }
    choice
}

} // verus!
