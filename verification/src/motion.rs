use vstd::prelude::*;
use vstd::arithmetic::div_mod::{lemma_small_mod, lemma_mod_multiples_vanish};
use crate::geometry::{Shape, COORD_LIMIT};
use crate::random::sample_inclusive;

verus! {

/// Height of the play field, in thousandths of a screen unit.
pub const SCREEN_HEIGHT: i64 = 500_000;

/// Vertical distance a scrolling shape covers in one simulation tick,
/// in thousandths of a screen unit (5 screen units per tick). The wrap
/// formula and the paused-state bookkeeping are written against this
/// one shared constant.
pub const SCROLL_SPEED: i64 = 5_000;

/// Smallest value the pause counter is reseeded with when a pause expires.
pub const RESEED_MIN: i64 = 5;

/// Largest value the pause counter is reseeded with when a pause expires.
pub const RESEED_MAX: i64 = 30;

/// Smallest initial pause-counter seed at round start.
pub const INITIAL_DELAY_MIN: i64 = 0;

/// Largest initial pause-counter seed at round start.
pub const INITIAL_DELAY_MAX: i64 = 25;

/// Largest half extent a lane's shapes may have. It keeps the whole
/// wrap range `[-h, SCREEN_HEIGHT + h)` within the coordinate limits.
pub const LANE_HALF_EXTENT_LIMIT: i64 = 100_000_000;

/// Whether a lane's moving shape is dwelling off-screen at the top of
/// the lane awaiting its pause to expire, or scrolling downwards.
#[derive(Clone, Copy, PartialEq, Eq, Structural, Debug)]
pub enum LanePhase {
    Paused,
    Scrolling,
}

/// One lane: a moving shape, the stationary target outline it must be
/// aligned with, and the lane's scroll-and-pause scheduling state. The
/// pause counter holds the remaining dwell ticks while paused, and the
/// dwell length of the next pause while scrolling.
#[derive(Clone, Copy, PartialEq, Eq, Structural, Debug)]
pub struct Lane {
    pub moving: Shape,
    pub target: Shape,
    pub phase: LanePhase,
    pub pause_counter: i64,
}

/// The vertical position after one scroll step: advance by the scroll
/// speed and wrap over `[-h, SCREEN_HEIGHT + h)` by modular arithmetic,
/// so the shape re-enters at the top after passing the bottom.
pub open spec fn spec_wrap_advance(y: int, h: int) -> int
    recommends
        0 < h,
        -h <= y,
{
    ((y + SCROLL_SPEED + h) % (SCREEN_HEIGHT + 2 * h)) - h
}

/// One scroll step moves the shape by exactly the scroll speed, except
/// at the wrap boundary, where it comes back around by one full period;
/// either way the result stays within `[-h, SCREEN_HEIGHT + h)`.
pub proof fn lemma_scroll_step_bounded(y: int, h: int)
    requires
        0 < h <= COORD_LIMIT,
        -h <= y < SCREEN_HEIGHT + h,
    ensures
        -h <= spec_wrap_advance(y, h) < SCREEN_HEIGHT + h,
        y + SCROLL_SPEED < SCREEN_HEIGHT + h ==> spec_wrap_advance(y, h) == y + SCROLL_SPEED,
        y + SCROLL_SPEED >= SCREEN_HEIGHT + h ==> spec_wrap_advance(y, h) == y + SCROLL_SPEED
            - (SCREEN_HEIGHT + 2 * h),
{
    let t = y + SCROLL_SPEED + h;
    let m = SCREEN_HEIGHT + 2 * h;
    if t < m {
        lemma_small_mod(t as nat, m as nat);
    } else {
        lemma_mod_multiples_vanish(1, t - m, m);
        lemma_small_mod((t - m) as nat, m as nat);
    }
}

/// Advance a scrolling shape's center by one tick of the motion law.
pub fn wrap_advance(y: i64, h: i64) -> (y2: i64)
    requires
        0 < h <= COORD_LIMIT,
        -h <= y < SCREEN_HEIGHT + h,
    ensures
        y2 == spec_wrap_advance(y as int, h as int),
        -h <= y2 < SCREEN_HEIGHT + h,
{
    proof {
        lemma_scroll_step_bounded(y as int, h as int);
    }
    let t: i64 = y + SCROLL_SPEED + h;
    let m: i64 = SCREEN_HEIGHT + 2 * h;
    if t < m {
        t - h
    } else {
        t - m - h
    }
}

impl Lane {
    /// The lane is well formed: the two shapes agree in kind, size and
    /// horizontal position, the target never moves, the moving shape
    /// lies within the wrap range, it sits exactly at the off-screen
    /// sentinel position whenever the lane is paused, and the pause
    /// counter is within the range the seeding rules can produce.
    pub open spec fn wf(self) -> bool {
        self.moving.wf()
        && self.target.wf()
        && self.moving.half_extent <= LANE_HALF_EXTENT_LIMIT
        && self.moving.kind == self.target.kind
        && self.moving.half_extent == self.target.half_extent
        && self.moving.x == self.target.x
        && -self.moving.half_extent <= self.moving.y < SCREEN_HEIGHT + self.moving.half_extent
        && (self.phase is Paused ==> self.moving.y == -self.moving.half_extent)
        && 0 <= self.pause_counter <= RESEED_MAX
    }

    /// The lane after one simulation tick, given the value `reseed`
    /// that the pause counter is reseeded with in case this tick ends a
    /// pause. While paused, the counter counts down; when it runs out,
    /// the counter is reseeded for the next pause and the shape leaves
    /// the sentinel position by one speed increment. While scrolling,
    /// the shape advances under the wrap law, and re-enters the paused
    /// state exactly when it lands back on the sentinel position.
    pub open spec fn spec_tick(self, reseed: int) -> Lane
        recommends
            self.wf(),
            RESEED_MIN <= reseed <= RESEED_MAX,
    {
        match self.phase {
            LanePhase::Paused => {
                if self.pause_counter - 1 <= 0 {
                    Lane {
                        phase: LanePhase::Scrolling,
                        pause_counter: reseed as i64,
                        moving: Shape { y: (self.moving.y + SCROLL_SPEED) as i64, ..self.moving },
                        ..self
                    }
                } else {
                    Lane { pause_counter: (self.pause_counter - 1) as i64, ..self }
                }
            }
            LanePhase::Scrolling => {
                let y2 = spec_wrap_advance(self.moving.y as int, self.moving.half_extent as int);
                Lane {
                    phase: if y2 == -self.moving.half_extent {
                        LanePhase::Paused
                    } else {
                        LanePhase::Scrolling
                    },
                    moving: Shape { y: y2 as i64, ..self.moving },
                    ..self
                }
            }
        }
    }

    /// A tick moves only the moving shape's vertical position and the
    /// scheduling state: the target outline never moves, and the shape
    /// kinds, sizes and horizontal positions are fixed for the life of
    /// the lane.
    pub proof fn lemma_tick_moves_only_the_moving_height(self, reseed: int)
        ensures
            self.spec_tick(reseed).target == self.target,
            self.spec_tick(reseed).moving.kind == self.moving.kind,
            self.spec_tick(reseed).moving.x == self.moving.x,
            self.spec_tick(reseed).moving.half_extent == self.moving.half_extent,
    {
    }

    /// Advance the lane by one simulation tick with an injected reseed
    /// value, deterministically.
    pub fn tick_with(&mut self, reseed: i64)
        requires
            old(self).wf(),
            RESEED_MIN <= reseed <= RESEED_MAX,
        ensures
            final(self).wf(),
            *final(self) == old(self).spec_tick(reseed as int),
    {
        match self.phase {
            LanePhase::Paused => {
                self.pause_counter = self.pause_counter - 1;
                if self.pause_counter <= 0 {
                    self.pause_counter = reseed;
                    self.moving.y = self.moving.y + SCROLL_SPEED;
                    self.phase = LanePhase::Scrolling;
                }
            }
            LanePhase::Scrolling => {
                proof {
                    lemma_scroll_step_bounded(
                        self.moving.y as int,
                        self.moving.half_extent as int,
                    );
                }
                let y2 = wrap_advance(self.moving.y, self.moving.half_extent);
                self.moving.y = y2;
                if y2 == -self.moving.half_extent {
                    self.phase = LanePhase::Paused;
                }
            }
        }
    }

    /// Advance the lane by one simulation tick, drawing the reseed value
    /// from the thread's random generator only on the tick that ends a
    /// pause. Whatever is drawn, the outcome is one tick of the motion
    /// law with a reseed in `[RESEED_MIN, RESEED_MAX]`; on every tick
    /// that does not end a pause the outcome is the same for every
    /// reseed value.
    pub fn tick(&mut self)
        requires
            old(self).wf(),
        ensures
            final(self).wf(),
            exists|r: int|
                RESEED_MIN <= r <= RESEED_MAX && *final(self) == old(self).spec_tick(r),
            !(old(self).phase is Paused && old(self).pause_counter <= 1) ==> forall|r: int|
                RESEED_MIN <= r <= RESEED_MAX ==> *final(self) == old(self).spec_tick(r),
    {
        let needs_reseed: bool = match self.phase {
            LanePhase::Paused => self.pause_counter <= 1,
            LanePhase::Scrolling => false,
        };
        let reseed: i64 = if needs_reseed {
            sample_inclusive(RESEED_MIN, RESEED_MAX)
        } else {
            RESEED_MIN
        };
        self.tick_with(reseed);
    }
}

} // verus!
