use flappy_dragon::config::{GAP_CENTER_MAX, GAP_CENTER_MIN, OBJECTIVE_ROW_MIN, SCREEN_HEIGHT};
use flappy_dragon::hazards::{Objective, Obstacle};
use flappy_dragon::player::Player;

#[test]
fn obstacle_hits_outside_gap_only() {
    let o = Obstacle::with_gap(80, 0, 20);
    assert_eq!(o.size / 2, 10);
    let above = Player { x: 80, y: 5, ..Player::new(0, 0) };
    let inside = Player { x: 80, y: 20, ..Player::new(0, 0) };
    assert!(o.hit_obstacle(&above));
    assert!(!o.hit_obstacle(&inside));
}

#[test]
fn obstacle_gap_edges_are_passable() {
    let o = Obstacle::with_gap(80, 0, 20);
    let at = |x: i32, y: i32| Player { x, y, ..Player::new(0, 0) };
    assert!(!o.hit_obstacle(&at(80, 10)));
    assert!(!o.hit_obstacle(&at(80, 30)));
    assert!(o.hit_obstacle(&at(80, 9)));
    assert!(o.hit_obstacle(&at(80, 31)));
    assert!(!o.hit_obstacle(&at(79, 0)));
    assert!(!o.hit_obstacle(&at(81, 0)));
}

#[test]
fn gap_narrows_with_score_down_to_floor() {
    assert_eq!(Obstacle::with_gap(0, 0, 20).size, 20);
    assert_eq!(Obstacle::with_gap(0, 5, 20).size, 15);
    assert_eq!(Obstacle::with_gap(0, 16, 20).size, 4);
    assert_eq!(Obstacle::with_gap(0, 30, 20).size, 4);
    assert_eq!(Obstacle::with_gap(0, 30, 20).size / 2, 2);
}

#[test]
fn random_obstacles_stay_in_band() {
    for _ in 0..200 {
        let o = Obstacle::new(7, 3);
        assert_eq!(o.x, 7);
        assert_eq!(o.size, 17);
        assert!(GAP_CENTER_MIN <= o.gap_y && o.gap_y < GAP_CENTER_MAX);
    }
}

#[test]
fn random_objectives_stay_on_screen() {
    let mut rows = std::collections::HashSet::new();
    for _ in 0..500 {
        let o = Objective::new(9);
        assert_eq!(o.x, 9);
        assert!(OBJECTIVE_ROW_MIN <= o.y && o.y < SCREEN_HEIGHT - 1);
        rows.insert(o.y);
    }
    assert!(rows.len() > 1);
}

#[test]
fn objective_hitbox_is_three_by_two() {
    let o = Objective::at(100, 10);
    let at = |x: i32, y: i32| Player { x, y, ..Player::new(0, 0) };
    assert!(o.hit_objective(&at(100, 10)));
    assert!(o.hit_objective(&at(102, 11)));
    assert!(!o.hit_objective(&at(103, 10)));
    assert!(!o.hit_objective(&at(99, 10)));
    assert!(!o.hit_objective(&at(101, 12)));
    assert!(!o.hit_objective(&at(101, 9)));
}

#[test]
fn hit_tests_work_at_coordinate_extremes() {
    let o = Objective::at(i32::MAX - 1, i32::MAX - 1);
    let p = Player { x: i32::MAX, y: i32::MAX, ..Player::new(0, 0) };
    assert!(o.hit_objective(&p));
    let wall = Obstacle { x: i32::MAX, gap_y: i32::MAX, size: 20 };
    assert!(!wall.hit_obstacle(&p));
    let low = Player { y: i32::MIN, ..p };
    assert!(wall.hit_obstacle(&low));
}

#[test]
fn wall_rows_match_the_hit_test() {
    let o = Obstacle::with_gap(80, 0, 20);
    assert!(o.is_wall(9));
    assert!(!o.is_wall(10));
    assert!(!o.is_wall(30));
    assert!(o.is_wall(31));
    for y in 0..SCREEN_HEIGHT {
        let p = Player { x: 80, y, ..Player::new(0, 0) };
        assert_eq!(o.is_wall(y), o.hit_obstacle(&p));
    }
}
