use shapefall::motion::{INITIAL_DELAY_MAX, INITIAL_DELAY_MIN};
use shapefall::session::{
    GameMode, GamePhase, GameSession, LaneKey, MenuAction, WIN_THRESHOLD,
};

fn playing_regular() -> GameSession {
    let mut s = GameSession::new_with_seeds(0, 1, 2, 3);
    s.menu_step(MenuAction::Confirm);
    s
}

#[test]
fn initial_session_layout() {
    let s = GameSession::new_with_seeds(0, 1, 2, 3);
    assert!(matches!(s.phase, GamePhase::MenuSelecting));
    assert!(matches!(s.mode, GameMode::Regular));
    assert_eq!(s.selected, 0);
    assert_eq!(s.score, 0);
    assert_eq!(s.rect_lane.moving.y, 150_000);
    assert_eq!(s.rect_lane.target.y, 375_000);
    assert_eq!(s.circle_lane.pause_counter, 1);
    assert_eq!(s.diamond_lane.moving.x, 460_000);
}

#[test]
fn random_initial_seeds_are_in_range() {
    // the initial pause-counter seed of every lane lies in [0, 25]
    for _ in 0..20 {
        let s = GameSession::new();
        for c in [
            s.rect_lane.pause_counter,
            s.circle_lane.pause_counter,
            s.triangle_lane.pause_counter,
            s.diamond_lane.pause_counter,
        ] {
            assert!(INITIAL_DELAY_MIN <= c && c <= INITIAL_DELAY_MAX);
        }
    }
}

#[test]
fn menu_down_moves_highlight_to_second_option() {
    let mut s = GameSession::new_with_seeds(0, 0, 0, 0);
    assert_eq!(s.selected, 0);
    s.menu_step(MenuAction::Down);
    assert_eq!(s.selected, 1);
    s.menu_step(MenuAction::Up);
    assert_eq!(s.selected, 0);
}

#[test]
fn confirm_at_first_option_starts_a_regular_round() {
    let mut s = GameSession::new_with_seeds(0, 0, 0, 0);
    s.menu_step(MenuAction::Confirm);
    assert!(matches!(s.phase, GamePhase::Playing));
    assert!(matches!(s.mode, GameMode::Regular));
    assert_eq!(WIN_THRESHOLD, 50_000);
}

#[test]
fn confirm_at_second_option_starts_an_endless_round() {
    let mut s = GameSession::new_with_seeds(0, 0, 0, 0);
    s.menu_step(MenuAction::Down);
    s.menu_step(MenuAction::Confirm);
    assert!(matches!(s.phase, GamePhase::Playing));
    assert!(matches!(s.mode, GameMode::Endless));
}

#[test]
fn menu_actions_are_ignored_during_play() {
    let mut s = playing_regular();
    s.menu_step(MenuAction::Down);
    assert_eq!(s.selected, 0);
    assert!(matches!(s.phase, GamePhase::Playing));
}

#[test]
fn aligned_press_scores_a_hit() {
    let mut s = playing_regular();
    s.rect_lane.moving.y = 375_000;
    s.handle_key_down(LaneKey::D);
    assert_eq!(s.score, 2_500);
}

#[test]
fn misaligned_press_costs_half_a_point_and_may_go_negative() {
    let mut s = playing_regular();
    // the moving shape starts at 150, far from the target at 375
    s.handle_key_down(LaneKey::F);
    assert_eq!(s.score, -500);
}

#[test]
fn held_key_scores_only_once_per_press() {
    let mut s = playing_regular();
    s.handle_key_down(LaneKey::J);
    assert_eq!(s.score, -500);
    // repeated key-down without an intervening key-up must not compound
    s.handle_key_down(LaneKey::J);
    s.handle_key_down(LaneKey::J);
    assert_eq!(s.score, -500);
    // after a key-up the next press counts again
    s.handle_key_up(LaneKey::J);
    s.handle_key_down(LaneKey::J);
    assert_eq!(s.score, -1_000);
}

#[test]
fn holding_one_key_does_not_block_another() {
    let mut s = playing_regular();
    s.handle_key_down(LaneKey::J);
    s.handle_key_down(LaneKey::K);
    assert_eq!(s.score, -1_000);
}

#[test]
fn key_events_are_ignored_outside_play() {
    let mut s = GameSession::new_with_seeds(0, 0, 0, 0);
    s.handle_key_down(LaneKey::D);
    assert_eq!(s.score, 0);
    assert!(!s.held_d);
}

#[test]
fn reaching_the_threshold_wins_on_the_next_check_not_before() {
    let mut s = playing_regular();
    s.score = 40_000;
    s.rect_lane.moving.y = 375_000;
    for expected in [42_500i64, 45_000, 47_500] {
        s.handle_key_down(LaneKey::D);
        s.handle_key_up(LaneKey::D);
        assert_eq!(s.score, expected);
        // below the threshold the check keeps the round running
        s.tick_with(5, 5, 5, 5);
        assert!(matches!(s.phase, GamePhase::Playing));
        s.rect_lane.moving.y = 375_000;
    }
    // the fourth consecutive hit reaches the threshold exactly
    s.handle_key_down(LaneKey::D);
    assert_eq!(s.score, 50_000);
    // not won yet: the transition happens on the next check
    assert!(matches!(s.phase, GamePhase::Playing));
    s.tick_with(5, 5, 5, 5);
    assert!(matches!(s.phase, GamePhase::Won));
}

#[test]
fn endless_mode_never_wins() {
    let mut s = GameSession::new_with_seeds(0, 0, 0, 0);
    s.menu_step(MenuAction::Down);
    s.menu_step(MenuAction::Confirm);
    s.score = 1_000_000;
    for _ in 0..10 {
        s.tick();
        assert!(matches!(s.phase, GamePhase::Playing));
    }
}

#[test]
fn ticks_are_ignored_outside_play() {
    let mut s = GameSession::new_with_seeds(4, 4, 4, 4);
    let before = s;
    s.tick();
    assert_eq!(s, before);
}

#[test]
fn tick_draws_reseeds_in_range_during_play() {
    let mut s = playing_regular();
    // run long enough for every lane to pause and unpause repeatedly
    for _ in 0..2_000 {
        s.tick();
        for lane in [s.rect_lane, s.circle_lane, s.triangle_lane, s.diamond_lane] {
            assert!(0 <= lane.pause_counter && lane.pause_counter <= 30);
            assert!(-50_000 <= lane.moving.y && lane.moving.y < 550_000);
        }
    }
}

#[test]
fn celebration_resets_the_score_and_returns_to_the_menu() {
    let mut s = playing_regular();
    s.score = 50_000;
    s.tick_with(5, 5, 5, 5);
    assert!(matches!(s.phase, GamePhase::Won));
    let rect_y = s.rect_lane.moving.y;
    let counter = s.circle_lane.pause_counter;
    s.finish_celebration();
    assert!(matches!(s.phase, GamePhase::MenuSelecting));
    assert_eq!(s.score, 0);
    // lane positions and counters carry over to the next round
    assert_eq!(s.rect_lane.moving.y, rect_y);
    assert_eq!(s.circle_lane.pause_counter, counter);
    assert!(matches!(s.mode, GameMode::Regular));
}
