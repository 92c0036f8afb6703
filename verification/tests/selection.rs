//! Tests for the selection primitives: the streaming max with uniform
//! tie-break, and the minimum search that the weighted variant's shift
//! derivation rests on.  Scores are real-valued in the callers; they reach
//! the library as order-preserving keys, built here exactly as the
//! unverified rim builds them.

use mcts_policy::rng::PolicyRng;
use mcts_policy::select::min_index;

/// Order-preserving `u64` key of a finite score: for non-NaN floats,
/// `a < b` exactly when `key(a) < key(b)`.
fn score_key(x: f64) -> u64 {
    let x = x + 0.0; // sends -0.0 to +0.0 so equal scores get equal keys
    let b = x.to_bits();
    if b & (1u64 << 63) != 0 {
        !b
    } else {
        b | (1u64 << 63)
    }
}

fn keys(scores: &[f64]) -> Vec<u64> {
    scores.iter().map(|&s| score_key(s)).collect()
}

#[test]
fn select_takes_the_strict_maximum() {
    for seed in 0..100 {
        let mut rng = PolicyRng::new(seed);
        assert_eq!(rng.select_by_key(&keys(&[-1.0, 4.5, 2.0])), Some(1));
    }
}

#[test]
fn select_orders_negative_scores_correctly() {
    for seed in 0..100 {
        let mut rng = PolicyRng::new(seed);
        assert_eq!(rng.select_by_key(&keys(&[-5.0, -3.0, -4.5])), Some(1));
    }
}

#[test]
fn select_on_single_element_returns_it() {
    let mut rng = PolicyRng::new(3);
    assert_eq!(rng.select_by_key(&keys(&[0.25])), Some(0));
}

#[test]
fn select_on_empty_returns_none() {
    let mut rng = PolicyRng::new(3);
    assert_eq!(rng.select_by_key(&Vec::new()), None);
}

#[test]
fn select_is_deterministic_per_seed() {
    for seed in 0..100 {
        let tied = keys(&[7.0, 7.0, 7.0]);
        let mut rng_a = PolicyRng::new(seed);
        let mut rng_b = PolicyRng::new(seed);
        assert_eq!(rng_a.select_by_key(&tied), rng_b.select_by_key(&tied));
    }
}

#[test]
fn select_breaks_three_way_ties_uniformly() {
    // Reservoir sampling over the maximal class: each of three tied leaders
    // ends up chosen about a third of the time, wherever it stands.
    let mut counts = [0u32; 3];
    for seed in 0..9_999 {
        let mut rng = PolicyRng::new(seed);
        let i = rng.select_by_key(&keys(&[1.0, 3.0, 3.0, 3.0, -2.0])).unwrap();
        assert!((1..=3).contains(&i));
        counts[i - 1] += 1;
    }
    for &c in counts.iter() {
        // expectation 3333, binomial standard deviation about 47
        assert!((3000..=3666).contains(&c), "counts {:?}", counts);
    }
}

#[test]
fn default_rng_draws_a_process_random_seed() {
    // The convenience constructor is only non-deterministic in its seed;
    // selection through it still meets the selection contract.
    let mut rng = PolicyRng::default();
    assert_eq!(rng.select_by_key(&vec![5u64]), Some(0));
    assert_eq!(rng.select_by_key(&keys(&[-2.0, 0.5])), Some(1));
}

#[test]
fn min_index_finds_the_first_minimum() {
    assert_eq!(min_index(&keys(&[-5.0, 3.0, 3.0])), Some(0));
    assert_eq!(min_index(&keys(&[2.0, -1.0, -1.0])), Some(1));
    assert_eq!(min_index(&keys(&[0.0, 0.0])), Some(0));
    assert_eq!(min_index(&Vec::new()), None);
}

#[test]
fn weighted_shift_from_minimal_score() {
    // The weighted variant's shift: the magnitude of the minimal score when
    // that is negative, else the fixed floor 0.01.  The minimum is located
    // through the library; the arithmetic mirrors the unverified rim.
    let shift_of = |scores: &[f64]| -> f64 {
        let i = min_index(&keys(scores)).unwrap();
        let minimal = scores[i];
        if minimal < 0.0 {
            -minimal
        } else {
            0.01
        }
    };
    assert_eq!(shift_of(&[-5.0, 3.0, 3.0]), 5.0);
    assert_eq!(shift_of(&[0.0, 0.0]), 0.01);
    assert_eq!(shift_of(&[2.0, 4.0]), 0.01);
}
