use vstd::prelude::*;
use crate::geometry::COORD_LIMIT;

verus! {

/// Width of the hit window, in thousandths of a screen unit: a press
/// scores positively exactly when the two centers are strictly closer
/// than this (the half-open interval `[0, 15)` in screen units).
pub const HIT_WINDOW: i64 = 15_000;

/// Score gained on a hit, in thousandths of a point (2.5 points).
pub const HIT_REWARD: i64 = 2_500;

/// Score lost on a miss, in thousandths of a point (0.5 points).
pub const MISS_PENALTY: i64 = 500;

/// The distance between two alignment coordinates.
pub open spec fn center_distance(a: int, b: int) -> int {
    if a >= b { a - b } else { b - a }
}

/// A press is a hit when the moving center is strictly within the hit
/// window of the target center.
pub open spec fn is_hit(moving_y: int, target_y: int) -> bool {
    center_distance(moving_y, target_y) < HIT_WINDOW
}

/// The score change a press earns: the reward on a hit, minus the
/// penalty on a miss. The score may go negative.
pub open spec fn spec_score_delta(moving_y: int, target_y: int) -> int {
    if is_hit(moving_y, target_y) { HIT_REWARD as int } else { -(MISS_PENALTY as int) }
}

/// Evaluate one press of a lane key against the lane's current
/// alignment. Deterministic and stateless: the result depends on the
/// two coordinates alone.
pub fn score_delta(moving_y: i64, target_y: i64) -> (delta: i64)
    requires
        -COORD_LIMIT <= moving_y <= COORD_LIMIT,
        -COORD_LIMIT <= target_y <= COORD_LIMIT,
    ensures
        delta == spec_score_delta(moving_y as int, target_y as int),
{
    let distance: i64 = if moving_y >= target_y { moving_y - target_y } else { target_y - moving_y };
    if distance < HIT_WINDOW {
        HIT_REWARD
    } else {
        -MISS_PENALTY
    }
}

/// Hit detection is symmetric in the two coordinates: swapping the
/// moving and the target center leaves the score change unchanged.
pub proof fn lemma_score_delta_symmetric(a: int, b: int)
    ensures
        spec_score_delta(a, b) == spec_score_delta(b, a),
{
}

/// Addition clamped to the representable score range. The score only
/// ever moves by a few thousandths of a point at a time, so the clamp
/// is unreachable in play; it keeps score accumulation total.
pub open spec fn spec_saturating_add(a: int, b: int) -> int {
    if a + b > i64::MAX {
        i64::MAX as int
    } else if a + b < i64::MIN {
        i64::MIN as int
    } else {
        a + b
    }
}

/// Add a score change to a running score, clamping at the ends of the
/// representable range.
pub fn saturating_add(a: i64, b: i64) -> (r: i64)
    ensures
        r == spec_saturating_add(a as int, b as int),
{
    if b > 0 && a > i64::MAX - b {
        i64::MAX
    } else if b < 0 && a < i64::MIN - b {
        i64::MIN
    } else {
        a + b
    }
}

} // verus!
