use bee_core::ternary::{
    fuzz, gen_buf_balanced, gen_buf_unbalanced, gen_trit_balanced, gen_trit_unbalanced,
    trit_balanced, trit_unbalanced,
};

#[test]
fn bytes_map_to_balanced_trits() {
    assert_eq!(trit_balanced(0), -1);
    assert_eq!(trit_balanced(1), 0);
    assert_eq!(trit_balanced(2), 1);
    assert_eq!(trit_balanced(3), -1);
    assert_eq!(trit_balanced(254), 1);
    assert_eq!(trit_balanced(255), -1);
}

#[test]
fn bytes_map_to_unbalanced_trits() {
    assert_eq!(trit_unbalanced(0), 0);
    assert_eq!(trit_unbalanced(1), 1);
    assert_eq!(trit_unbalanced(2), 2);
    assert_eq!(trit_unbalanced(3), 0);
    assert_eq!(trit_unbalanced(254), 2);
    assert_eq!(trit_unbalanced(255), 0);
}

#[test]
fn random_trits_stay_in_range_and_vary() {
    let mut balanced = [false; 3];
    let mut unbalanced = [false; 3];
    for _ in 0..2000 {
        let b = gen_trit_balanced();
        assert!((-1..=1).contains(&b));
        balanced[(b + 1) as usize] = true;
        let u = gen_trit_unbalanced();
        assert!((0..=2).contains(&u));
        unbalanced[u as usize] = true;
    }
    assert_eq!(balanced, [true; 3]);
    assert_eq!(unbalanced, [true; 3]);
}

#[test]
fn random_buffers_have_a_length_in_the_range() {
    for _ in 0..200 {
        let balanced = gen_buf_balanced(3..10);
        assert!(balanced.len() >= 3 && balanced.len() < 10);
        assert!(balanced.iter().all(|t| (-1..=1).contains(t)));
        let unbalanced = gen_buf_unbalanced(0..4);
        assert!(unbalanced.len() < 4);
        assert!(unbalanced.iter().all(|t| (0..=2).contains(t)));
    }
    assert_eq!(gen_buf_balanced(5..6).len(), 5);
    assert_eq!(gen_buf_unbalanced(7..8).len(), 7);
    assert!(gen_buf_balanced(0..1).is_empty());
}

#[test]
fn random_lengths_cover_the_range() {
    let mut seen = [false; 4];
    for _ in 0..500 {
        seen[gen_buf_unbalanced(0..4).len()] = true;
    }
    assert_eq!(seen, [true; 4]);
}

#[test]
fn fuzz_calls_the_function_that_many_times() {
    let mut calls = 0u32;
    fuzz(17, || calls += 1);
    assert_eq!(calls, 17);
    let mut none = 0u32;
    fuzz(0, || none += 1);
    assert_eq!(none, 0);
}
