use vstd::prelude::*;
use crate::config::{
    BASE_GAP_SIZE, GAP_CENTER_MAX, GAP_CENTER_MIN, MIN_GAP_SIZE, OBJECTIVE_ROW_MIN, SCREEN_HEIGHT,
};
use crate::player::Player;
use crate::random::random_range;

verus! {

/// A one-column barrier with a passable gap.
#[derive(Clone, Copy, Debug)]
pub struct Obstacle {
    pub x: i32,
    /// Row at the centre of the gap.
    pub gap_y: i32,
    /// Full height of the gap.
    pub size: i32,
}

/// A collectible three cells wide and two rows tall, anchored at its top-left cell.
#[derive(Clone, Copy, Debug)]
pub struct Objective {
    pub x: i32,
    pub y: i32,
}

/// Full gap height at a given score: it narrows by one per point, down to a floor.
pub open spec fn gap_size_for(score: int) -> int {
    if MIN_GAP_SIZE >= BASE_GAP_SIZE - score {
        MIN_GAP_SIZE as int
    } else {
        BASE_GAP_SIZE - score
    }
}

impl Obstacle {
    /// Half the gap height.
    pub open spec fn half_size(self) -> int {
        self.size / 2
    }

    /// Whether row `y` of this obstacle's column is wall rather than gap.
    pub open spec fn walls(self, y: int) -> bool {
        y < self.gap_y - self.half_size() || y > self.gap_y + self.half_size()
    }

    /// Whether a player is in this obstacle's column and outside its gap.
    pub open spec fn hits(self, player: Player) -> bool {
        player.x == self.x && self.walls(player.y as int)
    }

    /// An obstacle at `x` whose gap is centred on `gap_y` and sized for `score`.
    pub fn with_gap(x: i32, score: i32, gap_y: i32) -> (r: Self)
        requires
            score >= 0,
        ensures
            r.x == x,
            r.gap_y == gap_y,
            r.size == gap_size_for(score as int),
    {
        let size = if MIN_GAP_SIZE >= BASE_GAP_SIZE - score {
            MIN_GAP_SIZE
        } else {
            BASE_GAP_SIZE - score
        };
        Obstacle { x, gap_y, size }
    }

    /// An obstacle at `x` with a randomly placed gap sized for `score`.
    pub fn new(x: i32, score: i32) -> (r: Self)
        requires
            score >= 0,
        ensures
            r.x == x,
            GAP_CENTER_MIN <= r.gap_y < GAP_CENTER_MAX,
            r.size == gap_size_for(score as int),
    {
        let gap_y = random_range(GAP_CENTER_MIN, GAP_CENTER_MAX);
        Obstacle::with_gap(x, score, gap_y)
    }

    /// True iff row `y` of this obstacle's column is wall: above or below the gap.
    pub fn is_wall(&self, y: i32) -> (r: bool)
        requires
            self.size >= 0,
        ensures
            r == self.walls(y as int),
    {
        let half_size = (self.size / 2) as i64;
        (y as i64) < self.gap_y as i64 - half_size || y as i64 > self.gap_y as i64 + half_size
    }

    /// True iff the player stands in this obstacle's column, above or below the gap.
    pub fn hit_obstacle(&self, player: &Player) -> (r: bool)
        requires
            self.size >= 0,
        ensures
            r == self.hits(*player),
    {
        player.x == self.x && self.is_wall(player.y)
    }
}

impl Objective {
    /// Whether a player is inside this objective's three-by-two hitbox.
    pub open spec fn hits(self, player: Player) -> bool {
        self.x <= player.x < self.x + 3 && (player.y == self.y || player.y == self.y + 1)
    }

    /// An objective anchored at `(x, y)`.
    pub fn at(x: i32, y: i32) -> (r: Self)
        ensures
            r.x == x,
            r.y == y,
    {
        Objective { x, y }
    }

    /// An objective at `x` on a random row in `[2, SCREEN_HEIGHT - 1)`.
    pub fn new(x: i32) -> (r: Self)
        ensures
            r.x == x,
            OBJECTIVE_ROW_MIN <= r.y < SCREEN_HEIGHT - 1,
    {
        let y = random_range(OBJECTIVE_ROW_MIN, SCREEN_HEIGHT - 1);
        Objective::at(x, y)
    }

    /// True iff the player is inside the hitbox.
    pub fn hit_objective(&self, player: &Player) -> (r: bool)
        ensures
            r == self.hits(*player),
    {
        let in_x_bounds = player.x >= self.x && (player.x as i64) < (self.x as i64 + 3);
        let in_y_bounds = player.y == self.y || player.y as i64 == (self.y as i64 + 1);
        in_x_bounds && in_y_bounds
    }
}

/// The gap never shrinks below half the minimum size, and never widens as the score rises.
pub proof fn lemma_gap_narrows(score1: int, score2: int)
    requires
        score1 <= score2,
    ensures
        gap_size_for(score2) <= gap_size_for(score1),
        gap_size_for(score2) / 2 <= gap_size_for(score1) / 2,
        gap_size_for(score1) / 2 >= MIN_GAP_SIZE / 2,
{
}

} // verus!
