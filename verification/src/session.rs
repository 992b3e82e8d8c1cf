use vstd::prelude::*;
use crate::geometry::{Shape, ShapeKind};
use crate::motion::{
    Lane, LanePhase, INITIAL_DELAY_MAX, INITIAL_DELAY_MIN, RESEED_MAX, RESEED_MIN,
};
use crate::random::sample_inclusive;
use crate::scoring::{saturating_add, score_delta, spec_saturating_add, spec_score_delta};

verus! {

/// Score a regular-mode round must reach to be won, in thousandths of
/// a point (50 points).
pub const WIN_THRESHOLD: i64 = 50_000;

/// Half extent shared by every shape on the board, in thousandths of a
/// screen unit (50 screen units).
pub const LANE_HALF_EXTENT: i64 = 50_000;

/// Vertical center of every moving shape at round start.
pub const MOVING_START_Y: i64 = 150_000;

/// Vertical center of every target outline.
pub const TARGET_Y: i64 = 375_000;

/// Horizontal center of the rectangle lane.
pub const RECT_LANE_X: i64 = 130_000;

/// Horizontal center of the circle lane.
pub const CIRCLE_LANE_X: i64 = 240_000;

/// Horizontal center of the triangle lane.
pub const TRIANGLE_LANE_X: i64 = 350_000;

/// Horizontal center of the diamond lane.
pub const DIAMOND_LANE_X: i64 = 460_000;

/// The selected game mode: a regular round ends when the score reaches
/// the threshold; an endless round has no threshold and never ends.
#[derive(Clone, Copy, PartialEq, Eq, Structural, Debug)]
pub enum GameMode {
    Regular,
    Endless,
}

/// The top-level state: choosing a mode in the menu, playing a round,
/// or showing the celebration screen after a win.
#[derive(Clone, Copy, PartialEq, Eq, Structural, Debug)]
pub enum GamePhase {
    MenuSelecting,
    Playing,
    Won,
}

/// A navigation action in the mode-selection menu.
#[derive(Clone, Copy, PartialEq, Eq, Structural, Debug)]
pub enum MenuAction {
    Up,
    Down,
    Confirm,
}

/// The four lane keys, one per shape, left to right.
#[derive(Clone, Copy, PartialEq, Eq, Structural, Debug)]
pub enum LaneKey {
    D,
    F,
    J,
    K,
}

/// The whole game state: the four lanes, the running score, the chosen
/// mode, the menu highlight, the top-level phase, and one held flag per
/// lane key so that a held-down key scores only once per discrete
/// press.
#[derive(Clone, Copy, PartialEq, Eq, Structural, Debug)]
pub struct GameSession {
    pub phase: GamePhase,
    pub selected: i64,
    pub mode: GameMode,
    pub score: i64,
    pub rect_lane: Lane,
    pub circle_lane: Lane,
    pub triangle_lane: Lane,
    pub diamond_lane: Lane,
    pub held_d: bool,
    pub held_f: bool,
    pub held_j: bool,
    pub held_k: bool,
}

/// The lane a shape kind starts in, given its horizontal center and
/// its initial pause-counter seed: the moving shape and the target sit
/// at the shared starting heights and the lane begins scrolling.
pub open spec fn spec_starting_lane(kind: ShapeKind, x: int, seed: int) -> Lane {
    Lane {
        moving: Shape {
            kind,
            x: x as i64,
            y: MOVING_START_Y,
            half_extent: LANE_HALF_EXTENT,
        },
        target: Shape { kind, x: x as i64, y: TARGET_Y, half_extent: LANE_HALF_EXTENT },
        phase: LanePhase::Scrolling,
        pause_counter: seed as i64,
    }
}

/// The session as a round begins: in the menu with the first option
/// highlighted, regular mode, a zero score, no key held, and the four
/// lanes at their starting positions with the given counter seeds.
pub open spec fn spec_initial_session(
    rect_seed: int,
    circle_seed: int,
    triangle_seed: int,
    diamond_seed: int,
) -> GameSession {
    GameSession {
        phase: GamePhase::MenuSelecting,
        selected: 0,
        mode: GameMode::Regular,
        score: 0,
        rect_lane: spec_starting_lane(ShapeKind::Rectangle, RECT_LANE_X as int, rect_seed),
        circle_lane: spec_starting_lane(ShapeKind::Circle, CIRCLE_LANE_X as int, circle_seed),
        triangle_lane: spec_starting_lane(
            ShapeKind::Triangle,
            TRIANGLE_LANE_X as int,
            triangle_seed,
        ),
        diamond_lane: spec_starting_lane(ShapeKind::Diamond, DIAMOND_LANE_X as int, diamond_seed),
        held_d: false,
        held_f: false,
        held_j: false,
        held_k: false,
    }
}

impl GameSession {
    /// The session is well formed: every lane is well formed and holds
    /// the shape variant of its key, and the menu highlight is one of
    /// the two options.
    pub open spec fn wf(self) -> bool {
        self.rect_lane.wf()
        && self.circle_lane.wf()
        && self.triangle_lane.wf()
        && self.diamond_lane.wf()
        && self.rect_lane.moving.kind == ShapeKind::Rectangle
        && self.circle_lane.moving.kind == ShapeKind::Circle
        && self.triangle_lane.moving.kind == ShapeKind::Triangle
        && self.diamond_lane.moving.kind == ShapeKind::Diamond
        && (self.selected == 0 || self.selected == 1)
    }

    /// The lane a key is bound to.
    pub open spec fn spec_lane(self, key: LaneKey) -> Lane {
        match key {
            LaneKey::D => self.rect_lane,
            LaneKey::F => self.circle_lane,
            LaneKey::J => self.triangle_lane,
            LaneKey::K => self.diamond_lane,
        }
    }

    /// Whether a lane key is currently held down.
    pub open spec fn spec_held(self, key: LaneKey) -> bool {
        match key {
            LaneKey::D => self.held_d,
            LaneKey::F => self.held_f,
            LaneKey::J => self.held_j,
            LaneKey::K => self.held_k,
        }
    }

    /// The session with one key's held flag replaced.
    pub open spec fn spec_with_held(self, key: LaneKey, held: bool) -> GameSession {
        match key {
            LaneKey::D => GameSession { held_d: held, ..self },
            LaneKey::F => GameSession { held_f: held, ..self },
            LaneKey::J => GameSession { held_j: held, ..self },
            LaneKey::K => GameSession { held_k: held, ..self },
        }
    }

    /// Whether the round is won as the session stands: only a regular
    /// round can be won, once the score has reached the threshold.
    pub open spec fn spec_won_now(self) -> bool {
        self.mode is Regular && self.score >= WIN_THRESHOLD
    }

    /// The session after a key-down event. Outside play, and while the
    /// same key is already held, the event changes nothing; otherwise
    /// the press is scored once against the key's lane and the key is
    /// marked held until its key-up arrives.
    pub open spec fn spec_key_down(self, key: LaneKey) -> GameSession {
        if !(self.phase is Playing) {
            self
        } else if self.spec_held(key) {
            self
        } else {
            let lane = self.spec_lane(key);
            let delta = spec_score_delta(lane.moving.y as int, lane.target.y as int);
            let scored = GameSession {
                score: spec_saturating_add(self.score as int, delta) as i64,
                ..self
            };
            scored.spec_with_held(key, true)
        }
    }

    /// The session after a key-up event: the key is no longer held, in
    /// every phase, so the next press of it counts again.
    pub open spec fn spec_key_up(self, key: LaneKey) -> GameSession {
        self.spec_with_held(key, false)
    }

    /// The session after one menu action. Outside the menu the action
    /// changes nothing. Up highlights the first option, down the
    /// second; confirm fixes the mode the highlight stands on (the
    /// second option is the endless mode) and starts the round.
    pub open spec fn spec_menu_step(self, action: MenuAction) -> GameSession {
        if !(self.phase is MenuSelecting) {
            self
        } else {
            match action {
                MenuAction::Up => GameSession { selected: 0, ..self },
                MenuAction::Down => GameSession { selected: 1, ..self },
                MenuAction::Confirm => GameSession {
                    phase: GamePhase::Playing,
                    mode: if self.selected == 1 {
                        GameMode::Endless
                    } else {
                        GameMode::Regular
                    },
                    ..self
                },
            }
        }
    }

    /// The session after one simulation tick with the four injected
    /// lane reseed values. Outside play the tick changes nothing.
    /// During play every lane advances one tick of the motion law, and
    /// then the win condition is checked: the round is won exactly when
    /// the score has reached the threshold of a regular round.
    pub open spec fn spec_game_tick(
        self,
        rect_reseed: int,
        circle_reseed: int,
        triangle_reseed: int,
        diamond_reseed: int,
    ) -> GameSession {
        if !(self.phase is Playing) {
            self
        } else {
            GameSession {
                rect_lane: self.rect_lane.spec_tick(rect_reseed),
                circle_lane: self.circle_lane.spec_tick(circle_reseed),
                triangle_lane: self.triangle_lane.spec_tick(triangle_reseed),
                diamond_lane: self.diamond_lane.spec_tick(diamond_reseed),
                phase: if self.spec_won_now() {
                    GamePhase::Won
                } else {
                    GamePhase::Playing
                },
                ..self
            }
        }
    }

    /// The session once the celebration screen has run its course: the
    /// score returns to zero and the menu comes back. Lane positions,
    /// pause counters and the chosen mode are deliberately kept across
    /// rounds, for continuity of the animation.
    pub open spec fn spec_finish_celebration(self) -> GameSession {
        if self.phase is Won {
            GameSession { score: 0, phase: GamePhase::MenuSelecting, ..self }
        } else {
            self
        }
    }

    /// Build the starting session from four explicit counter seeds, so
    /// a deterministic source can stand in for the generator.
    pub fn new_with_seeds(
        rect_seed: i64,
        circle_seed: i64,
        triangle_seed: i64,
        diamond_seed: i64,
    ) -> (s: GameSession)
        requires
            INITIAL_DELAY_MIN <= rect_seed <= INITIAL_DELAY_MAX,
            INITIAL_DELAY_MIN <= circle_seed <= INITIAL_DELAY_MAX,
            INITIAL_DELAY_MIN <= triangle_seed <= INITIAL_DELAY_MAX,
            INITIAL_DELAY_MIN <= diamond_seed <= INITIAL_DELAY_MAX,
        ensures
            s.wf(),
            s == spec_initial_session(
                rect_seed as int,
                circle_seed as int,
                triangle_seed as int,
                diamond_seed as int,
            ),
    {
        GameSession {
            phase: GamePhase::MenuSelecting,
            selected: 0,
            mode: GameMode::Regular,
            score: 0,
            rect_lane: Lane {
                moving: Shape::new(ShapeKind::Rectangle, RECT_LANE_X, MOVING_START_Y, LANE_HALF_EXTENT),
                target: Shape::new(ShapeKind::Rectangle, RECT_LANE_X, TARGET_Y, LANE_HALF_EXTENT),
                phase: LanePhase::Scrolling,
                pause_counter: rect_seed,
            },
            circle_lane: Lane {
                moving: Shape::new(ShapeKind::Circle, CIRCLE_LANE_X, MOVING_START_Y, LANE_HALF_EXTENT),
                target: Shape::new(ShapeKind::Circle, CIRCLE_LANE_X, TARGET_Y, LANE_HALF_EXTENT),
                phase: LanePhase::Scrolling,
                pause_counter: circle_seed,
            },
            triangle_lane: Lane {
                moving: Shape::new(ShapeKind::Triangle, TRIANGLE_LANE_X, MOVING_START_Y, LANE_HALF_EXTENT),
                target: Shape::new(ShapeKind::Triangle, TRIANGLE_LANE_X, TARGET_Y, LANE_HALF_EXTENT),
                phase: LanePhase::Scrolling,
                pause_counter: triangle_seed,
            },
            diamond_lane: Lane {
                moving: Shape::new(ShapeKind::Diamond, DIAMOND_LANE_X, MOVING_START_Y, LANE_HALF_EXTENT),
                target: Shape::new(ShapeKind::Diamond, DIAMOND_LANE_X, TARGET_Y, LANE_HALF_EXTENT),
                phase: LanePhase::Scrolling,
                pause_counter: diamond_seed,
            },
            held_d: false,
            held_f: false,
            held_j: false,
            held_k: false,
        }
    }

    /// Build the starting session, seeding every lane's pause counter
    /// independently from the thread's random generator so the lanes
    /// desynchronize.
    pub fn new() -> (s: GameSession)
        ensures
            s.wf(),
            exists|a: int, b: int, c: int, d: int|
                INITIAL_DELAY_MIN <= a <= INITIAL_DELAY_MAX
                && INITIAL_DELAY_MIN <= b <= INITIAL_DELAY_MAX
                && INITIAL_DELAY_MIN <= c <= INITIAL_DELAY_MAX
                && INITIAL_DELAY_MIN <= d <= INITIAL_DELAY_MAX
                && s == spec_initial_session(a, b, c, d),
    {
        let rect_seed: i64 = sample_inclusive(INITIAL_DELAY_MIN, INITIAL_DELAY_MAX);
        let circle_seed: i64 = sample_inclusive(INITIAL_DELAY_MIN, INITIAL_DELAY_MAX);
        let triangle_seed: i64 = sample_inclusive(INITIAL_DELAY_MIN, INITIAL_DELAY_MAX);
        let diamond_seed: i64 = sample_inclusive(INITIAL_DELAY_MIN, INITIAL_DELAY_MAX);
        let s = Self::new_with_seeds(rect_seed, circle_seed, triangle_seed, diamond_seed);
        proof {
            assert(INITIAL_DELAY_MIN <= rect_seed as int <= INITIAL_DELAY_MAX
                && INITIAL_DELAY_MIN <= circle_seed as int <= INITIAL_DELAY_MAX
                && INITIAL_DELAY_MIN <= triangle_seed as int <= INITIAL_DELAY_MAX
                && INITIAL_DELAY_MIN <= diamond_seed as int <= INITIAL_DELAY_MAX
                && s == spec_initial_session(
                    rect_seed as int,
                    circle_seed as int,
                    triangle_seed as int,
                    diamond_seed as int,
                ));
        }
        s
    }

    /// Score one key-down event: exactly one evaluation per discrete
    /// press, ignored outside play and while the key is already held.
    pub fn handle_key_down(&mut self, key: LaneKey)
        requires
            old(self).wf(),
        ensures
            final(self).wf(),
            *final(self) == old(self).spec_key_down(key),
    {
        match self.phase {
            GamePhase::Playing => {}
            _ => {
                return;
            }
        }
        let held: bool = match key {
            LaneKey::D => self.held_d,
            LaneKey::F => self.held_f,
            LaneKey::J => self.held_j,
            LaneKey::K => self.held_k,
        };
        if held {
            return;
        }
        let moving_y: i64;
        let target_y: i64;
        match key {
            LaneKey::D => {
                moving_y = self.rect_lane.moving.y;
                target_y = self.rect_lane.target.y;
            }
            LaneKey::F => {
                moving_y = self.circle_lane.moving.y;
                target_y = self.circle_lane.target.y;
            }
            LaneKey::J => {
                moving_y = self.triangle_lane.moving.y;
                target_y = self.triangle_lane.target.y;
            }
            LaneKey::K => {
                moving_y = self.diamond_lane.moving.y;
                target_y = self.diamond_lane.target.y;
            }
        }
        let delta: i64 = score_delta(moving_y, target_y);
        self.score = saturating_add(self.score, delta);
        match key {
            LaneKey::D => {
                self.held_d = true;
            }
            LaneKey::F => {
                self.held_f = true;
            }
            LaneKey::J => {
                self.held_j = true;
            }
            LaneKey::K => {
                self.held_k = true;
            }
        }
    }

    /// Record one key-up event: the key counts as released again.
    pub fn handle_key_up(&mut self, key: LaneKey)
        requires
            old(self).wf(),
        ensures
            final(self).wf(),
            *final(self) == old(self).spec_key_up(key),
    {
        match key {
            LaneKey::D => {
                self.held_d = false;
            }
            LaneKey::F => {
                self.held_f = false;
            }
            LaneKey::J => {
                self.held_j = false;
            }
            LaneKey::K => {
                self.held_k = false;
            }
        }
    }

    /// Apply one menu navigation action.
    pub fn menu_step(&mut self, action: MenuAction)
        requires
            old(self).wf(),
        ensures
            final(self).wf(),
            *final(self) == old(self).spec_menu_step(action),
    {
        match self.phase {
            GamePhase::MenuSelecting => {}
            _ => {
                return;
            }
        }
        match action {
            MenuAction::Up => {
                self.selected = 0;
            }
            MenuAction::Down => {
                self.selected = 1;
            }
            MenuAction::Confirm => {
                self.mode = if self.selected == 1 {
                    GameMode::Endless
                } else {
                    GameMode::Regular
                };
                self.phase = GamePhase::Playing;
            }
        }
    }

    /// One simulation tick with the four injected lane reseed values,
    /// deterministically.
    pub fn tick_with(
        &mut self,
        rect_reseed: i64,
        circle_reseed: i64,
        triangle_reseed: i64,
        diamond_reseed: i64,
    )
        requires
            old(self).wf(),
            RESEED_MIN <= rect_reseed <= RESEED_MAX,
            RESEED_MIN <= circle_reseed <= RESEED_MAX,
            RESEED_MIN <= triangle_reseed <= RESEED_MAX,
            RESEED_MIN <= diamond_reseed <= RESEED_MAX,
        ensures
            final(self).wf(),
            *final(self) == old(self).spec_game_tick(
                rect_reseed as int,
                circle_reseed as int,
                triangle_reseed as int,
                diamond_reseed as int,
            ),
    {
        match self.phase {
            GamePhase::Playing => {}
            _ => {
                return;
            }
        }
        self.rect_lane.tick_with(rect_reseed);
        self.circle_lane.tick_with(circle_reseed);
        self.triangle_lane.tick_with(triangle_reseed);
        self.diamond_lane.tick_with(diamond_reseed);
        let won: bool = match self.mode {
            GameMode::Regular => self.score >= WIN_THRESHOLD,
            GameMode::Endless => false,
        };
        if won {
            self.phase = GamePhase::Won;
        }
    }

    /// One simulation tick, drawing any needed reseed values from the
    /// thread's random generator. Outside play the tick changes
    /// nothing. During play every lane advances one tick of the motion
    /// law for some reseed in the reseed range, everything but the
    /// lanes and the phase is untouched, and the phase moves to the won
    /// state exactly when the score has reached the threshold of a
    /// regular round.
    pub fn tick(&mut self)
        requires
            old(self).wf(),
        ensures
            final(self).wf(),
            !(old(self).phase is Playing) ==> *final(self) == *old(self),
            old(self).phase is Playing ==> {
                &&& exists|r: int|
                    RESEED_MIN <= r <= RESEED_MAX
                    && final(self).rect_lane == old(self).rect_lane.spec_tick(r)
                &&& exists|r: int|
                    RESEED_MIN <= r <= RESEED_MAX
                    && final(self).circle_lane == old(self).circle_lane.spec_tick(r)
                &&& exists|r: int|
                    RESEED_MIN <= r <= RESEED_MAX
                    && final(self).triangle_lane == old(self).triangle_lane.spec_tick(r)
                &&& exists|r: int|
                    RESEED_MIN <= r <= RESEED_MAX
                    && final(self).diamond_lane == old(self).diamond_lane.spec_tick(r)
                &&& final(self).score == old(self).score
                &&& final(self).mode == old(self).mode
                &&& final(self).selected == old(self).selected
                &&& final(self).held_d == old(self).held_d
                &&& final(self).held_f == old(self).held_f
                &&& final(self).held_j == old(self).held_j
                &&& final(self).held_k == old(self).held_k
                &&& final(self).phase == (if old(self).spec_won_now() {
                    GamePhase::Won
                } else {
                    GamePhase::Playing
                })
            },
    {
        match self.phase {
            GamePhase::Playing => {}
            _ => {
                return;
            }
        }
        self.rect_lane.tick();
        self.circle_lane.tick();
        self.triangle_lane.tick();
        self.diamond_lane.tick();
        let won: bool = match self.mode {
            GameMode::Regular => self.score >= WIN_THRESHOLD,
            GameMode::Endless => false,
        };
        if won {
            self.phase = GamePhase::Won;
        }
    }

    /// Leave the celebration screen: reset the score and return to the
    /// menu. Lane positions, pause counters and the chosen mode carry
    /// over to the next round.
    pub fn finish_celebration(&mut self)
        requires
            old(self).wf(),
        ensures
            final(self).wf(),
            *final(self) == old(self).spec_finish_celebration(),
    {
        match self.phase {
            GamePhase::Won => {}
            _ => {
                return;
            }
        }
        self.score = 0;
        self.phase = GamePhase::MenuSelecting;
    }
}

/// Reaching the threshold does not end the round by itself: a press
/// never changes the phase, and the transition to the won state
/// happens at the next tick's check, exactly when the accumulated
/// score has reached the threshold of a regular round.
pub proof fn lemma_win_on_next_check(
    s: GameSession,
    key: LaneKey,
    rect_reseed: int,
    circle_reseed: int,
    triangle_reseed: int,
    diamond_reseed: int,
)
    requires
        s.phase is Playing,
        s.mode is Regular,
    ensures
        s.spec_key_down(key).phase == s.phase,
        s.spec_key_down(key).spec_game_tick(
            rect_reseed,
            circle_reseed,
            triangle_reseed,
            diamond_reseed,
        ).phase == (if s.spec_key_down(key).score >= WIN_THRESHOLD {
            GamePhase::Won
        } else {
            GamePhase::Playing
        }),
{
    match key {
        LaneKey::D => {}
        LaneKey::F => {}
        LaneKey::J => {}
        LaneKey::K => {}
    }
}

/// A second key-down of the same key without an intervening key-up
/// changes nothing: scoring a discrete press is idempotent, so a held
/// or repeating key cannot compound the score change.
pub proof fn lemma_key_down_idempotent(s: GameSession, key: LaneKey)
    ensures
        s.spec_key_down(key).spec_key_down(key) == s.spec_key_down(key),
{
    match key {
        LaneKey::D => {}
        LaneKey::F => {}
        LaneKey::J => {}
        LaneKey::K => {}
    }
}

} // verus!
