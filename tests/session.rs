use flappy_dragon::config::{
    DIVING_HOLD_LENGTH, FRAME_DURATION_US, SCORE_ANIMATION_LENGTH, SCREEN_HEIGHT, SCREEN_WIDTH,
};
use flappy_dragon::game::{GameMode, Key, State};
use flappy_dragon::hazards::{Objective, Obstacle};
use flappy_dragon::player::{Player, PlayerState};

const STEP: u32 = 60_001;

fn playing() -> State {
    let mut s = State::new();
    s.restart();
    s.obstacle = Obstacle::with_gap(80, 0, 25);
    s.objective = Objective::at(120, 40);
    s
}

#[test]
fn new_game_waits_on_menu() {
    let s = State::new();
    assert_eq!(s.mode, GameMode::Menu);
    assert_eq!(s.score, 0);
    assert_eq!((s.player.x, s.player.y), (5, 25));
    assert_eq!(s.obstacle.x, SCREEN_WIDTH);
    assert_eq!(s.obstacle.size, 20);
    assert_eq!(s.objective.x, SCREEN_WIDTH + SCREEN_WIDTH / 2);
}

#[test]
fn x_advances_only_when_a_step_runs() {
    let mut s = playing();
    s.advance(30_000, false, 20, 10);
    assert_eq!(s.player.x, 5);
    assert_eq!(s.frame_time, 30_000);
    s.advance(30_000, false, 20, 10);
    assert_eq!(s.player.x, 5);
    s.advance(1, false, 20, 10);
    assert_eq!(s.player.x, 6);
    assert_eq!(s.frame_time, 0);
    s.advance(u32::MAX, false, 20, 10);
    assert_eq!(s.player.x, 7);
}

#[test]
fn exactly_one_frame_duration_does_not_step() {
    let mut s = playing();
    s.advance(FRAME_DURATION_US as u32, false, 20, 10);
    assert_eq!(s.player.x, 5);
}

#[test]
fn holding_input_dives_on_threshold_step() {
    let mut s = playing();
    s.advance(STEP, true, 20, 10);
    assert_eq!(s.player.state, PlayerState::Flapping);
    assert_eq!(s.player.dive_counter, 0);
    for held in 1..DIVING_HOLD_LENGTH {
        s.advance(STEP, true, 20, 10);
        assert_eq!(s.player.dive_counter, held);
        assert_eq!(s.player.state, PlayerState::Flapping);
    }
    s.advance(STEP, true, 20, 10);
    assert_eq!(s.player.dive_counter, DIVING_HOLD_LENGTH);
    assert_eq!(s.player.state, PlayerState::Diving);
}

#[test]
fn releasing_input_makes_a_diver_fall() {
    let mut s = playing();
    s.player.state = PlayerState::Diving;
    s.player.dive_counter = 4;
    s.advance(STEP, false, 20, 10);
    assert_eq!(s.player.state, PlayerState::Falling);
    assert_eq!(s.player.dive_counter, 0);
}

#[test]
fn releasing_input_lets_a_flap_run_on() {
    let mut s = playing();
    s.player.state = PlayerState::Flapping;
    s.player.flap_frame = 2;
    s.advance(STEP, false, 20, 10);
    assert_eq!(s.player.state, PlayerState::Flapping);
    assert_eq!(s.player.flap_frame, 3);
}

#[test]
fn input_is_latched_until_the_next_step() {
    let mut s = playing();
    s.advance(10_000, true, 20, 10);
    assert!(s.space_pressed_this_frame);
    assert_eq!(s.player.state, PlayerState::Flapping);
    s.advance(STEP, false, 20, 10);
    assert!(!s.space_pressed_this_frame);
    assert_eq!(s.player.dive_counter, 1);
    assert_eq!(s.player.state, PlayerState::Flapping);
}

#[test]
fn bottom_of_screen_ends_the_game() {
    let mut s = playing();
    s.player.y = SCREEN_HEIGHT - 1;
    s.player.velocity = 150;
    s.advance(STEP, false, 20, 10);
    assert_eq!(s.player.y, SCREEN_HEIGHT);
    assert_eq!(s.mode, GameMode::End);
}

#[test]
fn no_step_no_death_above_bottom() {
    let mut s = playing();
    s.player.y = SCREEN_HEIGHT - 1;
    s.advance(100, false, 20, 10);
    assert_eq!(s.mode, GameMode::Playing);
}

#[test]
fn passing_obstacle_scores_once_and_replaces_it_ahead() {
    let mut s = playing();
    s.obstacle = Obstacle::with_gap(5, 0, 25);
    s.advance(STEP, false, 33, 10);
    assert_eq!(s.score, 1);
    assert_eq!(s.player.score_animation_frame, 0);
    assert_eq!(s.obstacle.x, 6 + SCREEN_WIDTH);
    assert_eq!(s.obstacle.gap_y, 33);
    assert_eq!(s.obstacle.size, 19);
    s.advance(STEP, false, 33, 10);
    assert_eq!(s.score, 1);
}

#[test]
fn striking_obstacle_column_outside_gap_is_fatal() {
    let mut s = playing();
    s.obstacle = Obstacle::with_gap(6, 0, 39);
    s.advance(STEP, false, 20, 10);
    assert_eq!(s.player.x, 6);
    assert_eq!(s.mode, GameMode::End);
    assert_eq!(s.score, 0);
}

#[test]
fn collecting_objective_scores_and_flashes() {
    let mut s = playing();
    s.objective = Objective::at(5, 25);
    s.advance(STEP, false, 20, 12);
    assert_eq!(s.score, 1);
    assert_eq!(s.player.score_animation_frame, 0);
    assert_eq!(s.objective.x, 6 + SCREEN_WIDTH);
    assert_eq!(s.objective.y, 12);
}

#[test]
fn missed_objective_is_replaced_without_score() {
    let mut s = playing();
    s.objective = Objective::at(1, 2);
    s.advance(100, false, 20, 12);
    assert_eq!(s.score, 0);
    assert_eq!(s.objective.x, 5 + SCREEN_WIDTH);
    assert_eq!(s.objective.y, 12);
}

#[test]
fn score_flash_decays_once_per_step() {
    let mut s = playing();
    s.player.score_animation_frame = 0;
    s.advance(STEP, false, 20, 10);
    assert_eq!(s.player.score_animation_frame, 1);
    s.advance(100, false, 20, 10);
    assert_eq!(s.player.score_animation_frame, 1);
    for _ in 0..20 {
        s.advance(STEP, false, 20, 10);
    }
    assert_eq!(s.player.score_animation_frame, SCORE_ANIMATION_LENGTH - 1);
}

#[test]
fn limits_allow_a_normal_game_and_refuse_huge_numbers() {
    let mut s = playing();
    assert!(s.within_limits());
    s.score = i32::MAX;
    assert!(!s.within_limits());
    s.score = 0;
    s.player.x = i32::MAX;
    assert!(!s.within_limits());
}

#[test]
fn inc_score_adds_one_and_flashes() {
    let mut s = playing();
    s.inc_score();
    assert_eq!(s.score, 1);
    assert_eq!(s.player.score_animation_frame, 0);
}

#[test]
fn menu_keys_start_or_quit() {
    let mut s = State::new();
    assert!(!s.tick(STEP, None));
    assert_eq!(s.mode, GameMode::Menu);
    assert!(!s.tick(STEP, Some(Key::Space)));
    assert_eq!(s.mode, GameMode::Menu);
    assert!(s.tick(STEP, Some(Key::Q)));
    assert!(!s.tick(STEP, Some(Key::P)));
    assert_eq!(s.mode, GameMode::Playing);
    assert!(!s.tick(STEP, Some(Key::Space)));
    assert_eq!(s.player.x, 6);
    assert_eq!(s.player.state, PlayerState::Flapping);
}

#[test]
fn death_screen_restarts_a_fresh_game() {
    let mut s = playing();
    s.score = 7;
    s.player = Player { x: 300, y: 60, ..s.player };
    s.mode = GameMode::End;
    assert!(!s.dead(None));
    assert_eq!(s.score, 7);
    assert!(!s.dead(Some(Key::P)));
    assert_eq!(s.mode, GameMode::Playing);
    assert_eq!(s.score, 0);
    assert_eq!((s.player.x, s.player.y), (5, 25));
    assert_eq!(s.objective.x, SCREEN_WIDTH + SCREEN_WIDTH / 2);
    assert_eq!(s.frame_time, 0);
    assert!(s.main_menu(Some(Key::Q)));
}

#[test]
fn play_draws_rows_for_replacements() {
    let mut s = playing();
    s.obstacle = Obstacle::with_gap(5, 0, 25);
    s.play(STEP, false);
    assert_eq!(s.score, 1);
    assert_eq!(s.obstacle.x, 6 + SCREEN_WIDTH);
    assert!(10 <= s.obstacle.gap_y && s.obstacle.gap_y < 40);
}
