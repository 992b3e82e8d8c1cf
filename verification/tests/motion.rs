use shapefall::geometry::{Shape, ShapeKind};
use shapefall::motion::{
    wrap_advance, Lane, LanePhase, RESEED_MAX, RESEED_MIN, SCREEN_HEIGHT, SCROLL_SPEED,
};

fn scrolling_lane(y: i64) -> Lane {
    Lane {
        moving: Shape::new(ShapeKind::Circle, 240_000, y, 50_000),
        target: Shape::new(ShapeKind::Circle, 240_000, 375_000, 50_000),
        phase: LanePhase::Scrolling,
        pause_counter: 12,
    }
}

fn paused_lane(counter: i64) -> Lane {
    Lane {
        moving: Shape::new(ShapeKind::Circle, 240_000, -50_000, 50_000),
        target: Shape::new(ShapeKind::Circle, 240_000, 375_000, 50_000),
        phase: LanePhase::Paused,
        pause_counter: counter,
    }
}

#[test]
fn scroll_moves_by_speed_away_from_the_edge() {
    assert_eq!(wrap_advance(150_000, 50_000), 150_000 + SCROLL_SPEED);
    assert_eq!(wrap_advance(-50_000, 50_000), -45_000);
}

#[test]
fn scroll_wraps_at_the_bottom() {
    // 548 + 5 screen units passes the bottom edge of the wrap range and
    // comes back around by one full period (600 units)
    assert_eq!(wrap_advance(548_000, 50_000), -47_000);
    // the result always stays within [-h, SCREEN_HEIGHT + h)
    let mut y: i64 = 150_000;
    for _ in 0..500 {
        y = wrap_advance(y, 50_000);
        assert!(-50_000 <= y && y < SCREEN_HEIGHT + 50_000);
    }
}

#[test]
fn tick_advances_a_scrolling_lane() {
    let mut lane = scrolling_lane(150_000);
    lane.tick_with(7);
    assert_eq!(lane.moving.y, 155_000);
    assert!(matches!(lane.phase, LanePhase::Scrolling));
    // the counter is untouched while scrolling
    assert_eq!(lane.pause_counter, 12);
    // the target never moves
    assert_eq!(lane.target.y, 375_000);
}

#[test]
fn lane_reenters_pause_on_the_sentinel_position() {
    // from 545, one step lands exactly on the off-screen sentinel -50
    let mut lane = scrolling_lane(545_000);
    lane.tick_with(7);
    assert_eq!(lane.moving.y, -50_000);
    assert!(matches!(lane.phase, LanePhase::Paused));
}

#[test]
fn paused_lane_counts_down_without_moving() {
    let mut lane = paused_lane(5);
    lane.tick_with(9);
    assert_eq!(lane.pause_counter, 4);
    assert_eq!(lane.moving.y, -50_000);
    assert!(matches!(lane.phase, LanePhase::Paused));
}

#[test]
fn expiring_pause_reseeds_and_nudges_the_shape() {
    let mut lane = paused_lane(1);
    lane.tick_with(9);
    assert_eq!(lane.pause_counter, 9);
    assert_eq!(lane.moving.y, -45_000);
    assert!(matches!(lane.phase, LanePhase::Scrolling));
}

#[test]
fn expiring_pause_draws_a_reseed_in_range() {
    // the randomly drawn reseed value lies in the closed range [5, 30]
    for _ in 0..50 {
        let mut lane = paused_lane(1);
        lane.tick();
        assert!(matches!(lane.phase, LanePhase::Scrolling));
        assert!(RESEED_MIN <= lane.pause_counter && lane.pause_counter <= RESEED_MAX);
        assert_eq!(lane.moving.y, -45_000);
    }
}

#[test]
fn dwell_time_matches_the_counter() {
    // a counter of k holds the shape at the sentinel for k ticks
    let mut lane = paused_lane(3);
    for _ in 0..2 {
        lane.tick_with(9);
        assert!(matches!(lane.phase, LanePhase::Paused));
        assert_eq!(lane.moving.y, -50_000);
    }
    lane.tick_with(9);
    assert!(matches!(lane.phase, LanePhase::Scrolling));
    assert_eq!(lane.moving.y, -45_000);
}
