use bevy_bobs::droptable::{DropTable, DropTableError};
use bevy_bobs::random::{
    select_independent_trials, select_single_weighted, select_uniform, select_with_draws,
    RandomSource, PROBABILITY_SCALE,
};

#[test]
fn uniform_over_empty_pool_selects_nothing() {
    let mut rng = RandomSource::from_seed(0);
    let pool: Vec<u32> = vec![];
    for _ in 0..10 {
        assert_eq!(select_uniform(&pool, &mut rng), None);
    }
}

#[test]
fn uniform_over_single_element_returns_it() {
    let mut rng = RandomSource::from_seed(0);
    let pool = vec!["only"];
    for _ in 0..10 {
        assert_eq!(select_uniform(&pool, &mut rng), Some(&"only"));
    }
}

#[test]
fn uniform_reaches_every_element() {
    let mut rng = RandomSource::from_seed(42);
    let pool = vec![0usize, 1, 2];
    let mut seen = [false; 3];
    for _ in 0..300 {
        seen[*select_uniform(&pool, &mut rng).unwrap()] = true;
    }
    assert_eq!(seen, [true, true, true]);
}

#[test]
fn trials_with_certain_entries_keep_all() {
    let mut rng = RandomSource::from_seed(4);
    let entries = vec![("a", PROBABILITY_SCALE), ("b", PROBABILITY_SCALE), ("c", PROBABILITY_SCALE)];
    for _ in 0..20 {
        assert_eq!(select_independent_trials(&entries, &mut rng), vec![&"a", &"b", &"c"]);
    }
}

#[test]
fn trials_with_impossible_entries_keep_none() {
    let mut rng = RandomSource::from_seed(4);
    let entries = vec![("a", 0u32), ("b", 0u32)];
    for _ in 0..20 {
        assert!(select_independent_trials(&entries, &mut rng).is_empty());
    }
}

#[test]
fn trials_are_reproducible_from_a_seed() {
    let entries: Vec<(u32, u32)> = (0..50).map(|i| (i, PROBABILITY_SCALE / 2)).collect();
    let mut a = RandomSource::from_seed(12345);
    let mut b = RandomSource::from_seed(12345);
    for _ in 0..5 {
        assert_eq!(
            select_independent_trials(&entries, &mut a),
            select_independent_trials(&entries, &mut b)
        );
    }
}

#[test]
fn draws_decide_each_entry() {
    let entries = vec![("a", 500_000u32), ("b", 10), ("c", PROBABILITY_SCALE)];
    let draws = vec![499_999u32, 10, 999_999];
    assert_eq!(select_with_draws(&entries, &draws), vec![&"a", &"c"]);
    let draws = vec![500_000u32, 9, 0];
    assert_eq!(select_with_draws(&entries, &draws), vec![&"b", &"c"]);
}

#[test]
fn single_weighted_ignores_probabilities() {
    let mut rng = RandomSource::from_seed(9);
    let entries = vec![("never", 0u32)];
    assert_eq!(select_single_weighted(&entries, &mut rng), Some(&"never"));
    let empty: Vec<(u8, u32)> = vec![];
    assert_eq!(select_single_weighted(&empty, &mut rng), None);
}

#[test]
fn below_stays_in_range() {
    let mut rng = RandomSource::from_seed(77);
    for _ in 0..100 {
        assert!(rng.below(3) < 3);
    }
    assert_eq!(rng.below(1), 0);
}

#[test]
fn drop_table_rejects_probability_above_one() {
    let t = DropTable::new(vec![("a", 10u32), ("b", PROBABILITY_SCALE + 1), ("c", u32::MAX)]);
    assert_eq!(t.err(), Some(DropTableError::ProbabilityAboveOne { index: 1 }));
}

#[test]
fn drop_table_selects() {
    let mut rng = RandomSource::from_seed(31);
    let t = DropTable::new(vec![("gold", PROBABILITY_SCALE), ("junk", 0), ("gem", PROBABILITY_SCALE)])
        .ok()
        .unwrap();
    assert_eq!(t.select_drops(&mut rng), vec![&"gold", &"gem"]);
    let one = t.select_single_drop(&mut rng).unwrap();
    assert!(["gold", "junk", "gem"].contains(one));
    let empty: DropTable<u8> = DropTable::new(vec![]).ok().unwrap();
    assert_eq!(empty.select_single_drop(&mut rng), None);
    assert!(empty.select_drops(&mut rng).is_empty());
}
