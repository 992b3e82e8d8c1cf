use shapefall::scoring::{saturating_add, score_delta, HIT_REWARD, MISS_PENALTY};

#[test]
fn hit_at_zero_distance() {
    assert_eq!(score_delta(375_000, 375_000), 2_500);
}

#[test]
fn miss_at_window_bound_exactly() {
    // a distance of exactly 15 screen units misses: the window is half open
    assert_eq!(score_delta(390_000, 375_000), -500);
    assert_eq!(score_delta(360_000, 375_000), -500);
}

#[test]
fn hit_just_inside_window() {
    // 14.999 screen units is still a hit
    assert_eq!(score_delta(389_999, 375_000), 2_500);
    assert_eq!(score_delta(360_001, 375_000), 2_500);
}

#[test]
fn delta_is_symmetric() {
    let pairs: [(i64, i64); 4] = [
        (375_000, 375_000),
        (389_999, 375_000),
        (390_000, 375_000),
        (-20_000, 130_000),
    ];
    for (a, b) in pairs {
        assert_eq!(score_delta(a, b), score_delta(b, a));
    }
}

#[test]
fn reward_and_penalty_values() {
    assert_eq!(HIT_REWARD, 2_500);
    assert_eq!(MISS_PENALTY, 500);
    assert_eq!(score_delta(0, 100_000), -MISS_PENALTY);
    assert_eq!(score_delta(0, 0), HIT_REWARD);
}

#[test]
fn saturating_add_ordinary_and_clamped() {
    assert_eq!(saturating_add(40_000, 2_500), 42_500);
    assert_eq!(saturating_add(0, -500), -500);
    assert_eq!(saturating_add(i64::MAX, 1), i64::MAX);
    assert_eq!(saturating_add(i64::MIN, -1), i64::MIN);
}
