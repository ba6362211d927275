use pong::game::game_state::GameState;
use pong::game::physics::BallDirection;
use pong::game::units::{COEFFICIENT_ONE, COEFFICIENT_STEP};

#[test]
fn new_state_has_no_points_and_a_ball_at_rest() {
    let state = GameState::new();
    assert_eq!(state.p1_score(), 0);
    assert_eq!(state.p2_score(), 0);
    assert!(!state.ball_moving());
    assert_eq!(*state.ball_direction(), BallDirection::Left);
    assert_eq!(state.ball_angle(), 0);
    assert_eq!(state.ball_speed_coefficient(), 10);
    assert_eq!(state.ball_speed_coefficient(), COEFFICIENT_ONE);
}

#[test]
fn inc_p1_score_adds_one_to_player_one_only() {
    let mut state = GameState::new();
    state.inc_p1_score();
    assert_eq!(state.p1_score(), 1);
    assert_eq!(state.p2_score(), 0);
    state.inc_p1_score();
    assert_eq!(state.p1_score(), 2);
    assert_eq!(state.p2_score(), 0);
}

#[test]
fn inc_p2_score_adds_one_to_player_two_only() {
    let mut state = GameState::new();
    state.inc_p2_score();
    assert_eq!(state.p1_score(), 0);
    assert_eq!(state.p2_score(), 1);
}

#[test]
fn scores_leave_the_rest_of_the_state() {
    let mut state = GameState::new();
    state.set_ball_angle(-30);
    state.set_ball_direction(BallDirection::Right);
    let before = state;
    state.inc_p1_score();
    state.inc_p2_score();
    assert_eq!(state.ball_moving(), before.ball_moving());
    assert_eq!(state.ball_direction(), before.ball_direction());
    assert_eq!(state.ball_angle(), before.ball_angle());
    assert_eq!(state.ball_speed_coefficient(), before.ball_speed_coefficient());
}

#[test]
fn toggle_ball_moving_flips_the_flag() {
    let mut state = GameState::new();
    state.toggle_ball_moving();
    assert!(state.ball_moving());
    state.toggle_ball_moving();
    assert!(!state.ball_moving());
    assert_eq!(state, GameState::new());
}

#[test]
fn toggle_ball_direction_turns_the_ball_round() {
    let mut state = GameState::new();
    assert_eq!(*state.ball_direction(), BallDirection::Left);
    state.toggle_ball_direction();
    assert_eq!(*state.ball_direction(), BallDirection::Right);
    state.toggle_ball_direction();
    assert_eq!(*state.ball_direction(), BallDirection::Left);
    assert_eq!(state, GameState::new());
}

#[test]
fn set_ball_direction_stores_the_direction() {
    let mut state = GameState::new();
    state.set_ball_direction(BallDirection::Right);
    assert_eq!(*state.ball_direction(), BallDirection::Right);
    state.set_ball_direction(BallDirection::Right);
    assert_eq!(*state.ball_direction(), BallDirection::Right);
    state.set_ball_direction(BallDirection::Left);
    assert_eq!(*state.ball_direction(), BallDirection::Left);
}

#[test]
fn set_ball_angle_stores_any_angle() {
    let mut state = GameState::new();
    state.set_ball_angle(45);
    assert_eq!(state.ball_angle(), 45);
    state.set_ball_angle(-45);
    assert_eq!(state.ball_angle(), -45);
    state.set_ball_angle(i32::MIN);
    assert_eq!(state.ball_angle(), i32::MIN);
    state.set_ball_angle(i32::MAX);
    assert_eq!(state.ball_angle(), i32::MAX);
    assert!(!state.ball_moving());
    assert_eq!(state.ball_speed_coefficient(), 10);
}

#[test]
fn bump_speed_coefficient_adds_two_tenths() {
    let mut state = GameState::new();
    state.bump_speed_coefficient();
    assert_eq!(state.ball_speed_coefficient(), 12);
    state.bump_speed_coefficient();
    assert_eq!(state.ball_speed_coefficient(), 14);
    assert_eq!(state.ball_speed_coefficient(), COEFFICIENT_ONE + 2 * COEFFICIENT_STEP);
    assert_eq!(state.p1_score(), 0);
    assert_eq!(state.ball_angle(), 0);
}
