use vstd::prelude::*;
use crate::config::{
    DIVING_HOLD_LENGTH, FRAME_DURATION_US, GAP_CENTER_MAX, GAP_CENTER_MIN, MIN_GAP_SIZE,
    BASE_GAP_SIZE, OBJECTIVE_ROW_MIN, PLAYER_START_X, PLAYER_START_Y, SCORE_ANIMATION_LENGTH,
    SCORE_LIMIT, SCREEN_HEIGHT, SCREEN_WIDTH, VELOCITY_LIMIT, X_LIMIT, Y_LIMIT,
};
use crate::hazards::{gap_size_for, Objective, Obstacle};
use crate::player::{Player, PlayerState};
use crate::random::random_range;

verus! {

/// Which screen the game is on.
#[derive(PartialEq, Eq, Structural, Clone, Copy, Debug)]
pub enum GameMode {
    Menu,
    Playing,
    End,
}

/// The keys the game reacts to.
#[derive(PartialEq, Eq, Structural, Clone, Copy, Debug)]
pub enum Key {
    /// Flap; held, dive.
    Space,
    /// Play, or play again.
    P,
    /// Quit.
    Q,
}

/// A whole game: the player, the live obstacle and objective, the score and the mode.
#[derive(Clone, Copy, Debug)]
pub struct State {
    pub player: Player,
    /// Microseconds accumulated toward the next physics step.
    pub frame_time: u64,
    pub obstacle: Obstacle,
    pub objective: Objective,
    pub mode: GameMode,
    pub score: i32,
    /// Whether the input was asserted since the last physics step.
    pub space_pressed_this_frame: bool,
}

/// Whether a key asserts the flap / dive input.
pub open spec fn asserts_input(key: Option<Key>) -> bool {
    key == Some(Key::Space)
}

/// The player with its score flash restarted.
pub open spec fn flashed(p: Player) -> Player {
    Player { score_animation_frame: 0, ..p }
}

/// The fixed-step part of a tick: physics, flap animation, dive counting, flash decay.
pub open spec fn fixed_step(p: Player, held: bool) -> Player {
    let p1 = p.stepped().flap_advanced();
    let p2 = if held {
        Player { dive_counter: (p1.dive_counter + 1) as usize, ..p1 }
    } else {
        p1
    };
    if p2.score_animation_frame < SCORE_ANIMATION_LENGTH - 1 {
        Player { score_animation_frame: (p2.score_animation_frame + 1) as usize, ..p2 }
    } else {
        p2
    }
}

/// The state an asserted input selects: a dive once held long enough, else a flap.
pub open spec fn input_state(p: Player) -> PlayerState {
    if p.dive_counter >= DIVING_HOLD_LENGTH {
        PlayerState::Diving
    } else {
        PlayerState::Flapping
    }
}

impl State {
    /// Counters and live entities lie in the ranges the game keeps them in.
    pub open spec fn wf(self) -> bool {
        &&& self.player.wf()
        &&& self.frame_time <= FRAME_DURATION_US
        &&& 0 <= self.score
        &&& GAP_CENTER_MIN <= self.obstacle.gap_y < GAP_CENTER_MAX
        &&& MIN_GAP_SIZE <= self.obstacle.size <= BASE_GAP_SIZE
        &&& OBJECTIVE_ROW_MIN <= self.objective.y < SCREEN_HEIGHT - 1
        &&& self.objective.x <= X_LIMIT + SCREEN_WIDTH
    }

    /// Magnitudes small enough that a tick cannot overflow.
    pub open spec fn in_range(self) -> bool {
        &&& self.player.in_range()
        &&& self.score <= SCORE_LIMIT
    }

    /// A session as it stands at the start of a game, whatever the random draws were.
    pub open spec fn is_fresh(self) -> bool {
        &&& self.player == Player::new_spec(PLAYER_START_X, PLAYER_START_Y)
        &&& self.frame_time == 0
        &&& self.obstacle.x == SCREEN_WIDTH
        &&& GAP_CENTER_MIN <= self.obstacle.gap_y < GAP_CENTER_MAX
        &&& self.obstacle.size == gap_size_for(0)
        &&& self.objective.x == SCREEN_WIDTH + SCREEN_WIDTH / 2
        &&& OBJECTIVE_ROW_MIN <= self.objective.y < SCREEN_HEIGHT - 1
        &&& self.score == 0
        &&& !self.space_pressed_this_frame
    }

    /// Whether enough time has accumulated for a physics step.
    pub open spec fn stepping(self) -> bool {
        self.frame_time > FRAME_DURATION_US
    }

    /// Elapsed time accumulated and an asserted input latched until the next physics step.
    pub open spec fn accumulated(self, elapsed_us: u32, space: bool) -> State {
        State {
            frame_time: (self.frame_time + elapsed_us) as u64,
            space_pressed_this_frame: self.space_pressed_this_frame || space,
            ..self
        }
    }

    /// The physics step, if one is due.
    pub open spec fn after_fixed_step(self) -> State {
        if self.stepping() {
            State { player: fixed_step(self.player, self.space_pressed_this_frame), ..self }
        } else {
            self
        }
    }

    /// A latched input selects flapping or diving.
    pub open spec fn after_input(self) -> State {
        if self.space_pressed_this_frame {
            State { player: self.player.with_state(input_state(self.player)), ..self }
        } else {
            self
        }
    }

    /// A passed obstacle scores and is replaced ahead of the player, its gap centred on `gap_y`.
    pub open spec fn after_obstacle(self, gap_y: i32) -> State {
        if self.player.x > self.obstacle.x {
            let score = self.score + 1;
            State {
                score: score as i32,
                player: flashed(self.player),
                obstacle: Obstacle {
                    x: (self.player.x + SCREEN_WIDTH) as i32,
                    gap_y,
                    size: gap_size_for(score) as i32,
                },
                ..self
            }
        } else {
            self
        }
    }

    /// A collected objective scores; a collected or passed one is replaced ahead of the
    /// player on row `objective_y`.
    pub open spec fn after_objective(self, objective_y: i32) -> State {
        let replacement = Objective { x: (self.player.x + SCREEN_WIDTH) as i32, y: objective_y };
        if self.objective.hits(self.player) {
            State {
                score: (self.score + 1) as i32,
                player: flashed(self.player),
                objective: replacement,
                ..self
            }
        } else if self.player.x > self.objective.x {
            State { objective: replacement, ..self }
        } else {
            self
        }
    }

    /// Whether the player has left the bottom of the screen or struck the obstacle.
    pub open spec fn is_dying(self) -> bool {
        self.player.y >= SCREEN_HEIGHT || self.obstacle.hits(self.player)
    }

    /// A dying player ends the game.
    pub open spec fn after_death(self) -> State {
        if self.is_dying() {
            State { mode: GameMode::End, ..self }
        } else {
            self
        }
    }

    /// After a physics step the clock and the latch are cleared; without input a
    /// player that is not flapping falls.
    pub open spec fn after_frame_end(self) -> State {
        if self.stepping() {
            if self.space_pressed_this_frame {
                State { frame_time: 0, space_pressed_this_frame: false, ..self }
            } else if self.player.state != PlayerState::Flapping {
                State { frame_time: 0, player: self.player.with_state(PlayerState::Falling), ..self }
            } else {
                State { frame_time: 0, ..self }
            }
        } else {
            self
        }
    }

    /// The session after one playing tick in which `elapsed_us` microseconds passed,
    /// `space` tells whether the input is asserted, and a replaced obstacle or objective
    /// takes `gap_y` or `objective_y` as its random row.
    pub open spec fn advanced(
        self,
        elapsed_us: u32,
        space: bool,
        gap_y: i32,
        objective_y: i32,
    ) -> State {
        self.accumulated(elapsed_us, space).after_fixed_step().after_input().after_obstacle(
            gap_y,
        ).after_objective(objective_y).after_death().after_frame_end()
    }

    /// Whether the numbers are small enough for another tick.
    pub fn within_limits(&self) -> (r: bool)
        ensures
            r == self.in_range(),
    {
        self.player.x < X_LIMIT && self.player.y <= Y_LIMIT && -VELOCITY_LIMIT
            <= self.player.velocity && self.player.velocity <= VELOCITY_LIMIT
            && self.player.dive_counter < usize::MAX && self.score <= SCORE_LIMIT
    }

    /// A game on its menu screen, with a fresh session behind it.
    pub fn new() -> (r: Self)
        ensures
            r.is_fresh(),
            r.mode == GameMode::Menu,
            r.wf(),
    {
        State {
            player: Player::new(PLAYER_START_X, PLAYER_START_Y),
            frame_time: 0,
            obstacle: Obstacle::new(SCREEN_WIDTH, 0),
            objective: Objective::new(SCREEN_WIDTH + (SCREEN_WIDTH / 2)),
            mode: GameMode::Menu,
            score: 0,
            space_pressed_this_frame: false,
        }
    }

    /// Starts a new game: a fresh player, obstacle, objective, score and clock.
    pub fn restart(&mut self)
        ensures
            final(self).is_fresh(),
            final(self).mode == GameMode::Playing,
            final(self).wf(),
    {
        self.player = Player::new(PLAYER_START_X, PLAYER_START_Y);
        self.frame_time = 0;
        self.obstacle = Obstacle::new(SCREEN_WIDTH, 0);
        self.objective = Objective::new(SCREEN_WIDTH + (SCREEN_WIDTH / 2));
        self.mode = GameMode::Playing;
        self.score = 0;
        self.space_pressed_this_frame = false;
    }

    /// Adds a point and restarts the score flash.
    pub fn inc_score(&mut self)
        requires
            old(self).score < i32::MAX,
        ensures
            *final(self) == (State {
                score: (old(self).score + 1) as i32,
                player: flashed(old(self).player),
                ..*old(self)
            }),
    {
        self.score = self.score + 1;
        self.player.score_animation_frame = 0;
    }

    /// One playing tick with the random rows of any replacement given: see `advanced`.
    pub fn advance(&mut self, elapsed_us: u32, space: bool, gap_y: i32, objective_y: i32)
        requires
            old(self).wf(),
            old(self).in_range(),
            GAP_CENTER_MIN <= gap_y < GAP_CENTER_MAX,
            OBJECTIVE_ROW_MIN <= objective_y < SCREEN_HEIGHT - 1,
        ensures
            *final(self) == old(self).advanced(elapsed_us, space, gap_y, objective_y),
            final(self).wf(),
    {
        self.frame_time = self.frame_time + elapsed_us as u64;
        if space {
            self.space_pressed_this_frame = true;
        }
        self.fixed_step();
        self.select_from_input();
        self.resolve_obstacle(gap_y);
        self.resolve_objective(objective_y);
        if self.player.y >= SCREEN_HEIGHT || self.obstacle.hit_obstacle(&self.player) {
            self.mode = GameMode::End;
        }
        self.end_frame();
    }

    fn fixed_step(&mut self)
        requires
            old(self).player.wf(),
            old(self).player.in_range(),
        ensures
            *final(self) == old(self).after_fixed_step(),
            final(self).player.wf(),
            final(self).player.x <= old(self).player.x + 1,
            final(self).player.x >= old(self).player.x,
    {
        if self.frame_time > FRAME_DURATION_US {
            self.player.gravity_and_move();
            self.player.handle_flap();
            if self.space_pressed_this_frame {
                self.player.dive_counter = self.player.dive_counter + 1;
            }
            if self.player.score_animation_frame < SCORE_ANIMATION_LENGTH - 1 {
                self.player.score_animation_frame = self.player.score_animation_frame + 1;
            }
        }
    }

    fn select_from_input(&mut self)
        ensures
            *final(self) == old(self).after_input(),
    {
        if self.space_pressed_this_frame {
            if self.player.dive_counter >= DIVING_HOLD_LENGTH {
                self.player.set_state(PlayerState::Diving);
            } else {
                self.player.set_state(PlayerState::Flapping);
            }
        }
    }

    fn resolve_obstacle(&mut self, gap_y: i32)
        requires
            old(self).player.x <= X_LIMIT,
            0 <= old(self).score <= SCORE_LIMIT,
        ensures
            *final(self) == old(self).after_obstacle(gap_y),
    {
        if self.player.x > self.obstacle.x {
            self.inc_score();
            self.obstacle = Obstacle::with_gap(self.player.x + SCREEN_WIDTH, self.score, gap_y);
        }
    }

    fn resolve_objective(&mut self, objective_y: i32)
        requires
            old(self).player.x <= X_LIMIT,
            old(self).score <= SCORE_LIMIT + 1,
            old(self).objective.x <= X_LIMIT + SCREEN_WIDTH,
            OBJECTIVE_ROW_MIN <= old(self).objective.y < SCREEN_HEIGHT - 1,
        ensures
            *final(self) == old(self).after_objective(objective_y),
    {
        if self.objective.hit_objective(&self.player) {
            self.inc_score();
            self.objective = Objective::at(self.player.x + SCREEN_WIDTH, objective_y);
        } else if self.player.x > self.objective.x {
            self.objective = Objective::at(self.player.x + SCREEN_WIDTH, objective_y);
        }
    }

    fn end_frame(&mut self)
        ensures
            *final(self) == old(self).after_frame_end(),
    {
        if self.frame_time > FRAME_DURATION_US {
            self.frame_time = 0;
            if self.space_pressed_this_frame {
                self.space_pressed_this_frame = false;
            } else if self.player.state != PlayerState::Flapping {
                self.player.set_state(PlayerState::Falling);
            }
        }
    }

    /// One playing tick: draws the random rows a replacement may need, then advances.
    pub fn play(&mut self, elapsed_us: u32, space: bool)
        requires
            old(self).wf(),
            old(self).in_range(),
        ensures
            exists|gap_y: i32, objective_y: i32|
                GAP_CENTER_MIN <= gap_y < GAP_CENTER_MAX
                && OBJECTIVE_ROW_MIN <= objective_y < SCREEN_HEIGHT - 1
                && *final(self) == old(self).advanced(elapsed_us, space, gap_y, objective_y),
            final(self).wf(),
    {
        let gap_y = random_range(GAP_CENTER_MIN, GAP_CENTER_MAX);
        let objective_y = random_range(OBJECTIVE_ROW_MIN, SCREEN_HEIGHT - 1);
        self.advance(elapsed_us, space, gap_y, objective_y);
    }

    /// The menu and death screens: play starts a new game, quit asks to leave.
    fn screen_key(&mut self, key: Option<Key>) -> (quit: bool)
        requires
            old(self).wf(),
        ensures
            quit == (key == Some(Key::Q)),
            key == Some(Key::P) ==> final(self).is_fresh() && final(self).mode
                == GameMode::Playing,
            key != Some(Key::P) ==> *final(self) == *old(self),
            final(self).wf(),
    {
        match key {
            Some(Key::P) => {
                self.restart();
                false
            },
            Some(Key::Q) => true,
            _ => false,
        }
    }

    /// The title screen: `P` starts a game, `Q` asks to quit; returns whether to quit.
    pub fn main_menu(&mut self, key: Option<Key>) -> (quit: bool)
        requires
            old(self).wf(),
        ensures
            quit == (key == Some(Key::Q)),
            key == Some(Key::P) ==> final(self).is_fresh() && final(self).mode
                == GameMode::Playing,
            key != Some(Key::P) ==> *final(self) == *old(self),
            final(self).wf(),
    {
        self.screen_key(key)
    }

    /// The death screen: `P` plays again, `Q` asks to quit; returns whether to quit.
    pub fn dead(&mut self, key: Option<Key>) -> (quit: bool)
        requires
            old(self).wf(),
        ensures
            quit == (key == Some(Key::Q)),
            key == Some(Key::P) ==> final(self).is_fresh() && final(self).mode
                == GameMode::Playing,
            key != Some(Key::P) ==> *final(self) == *old(self),
            final(self).wf(),
    {
        self.screen_key(key)
    }

    /// One external tick, dispatched on the mode; returns whether the player asked to quit.
    pub fn tick(&mut self, elapsed_us: u32, key: Option<Key>) -> (quit: bool)
        requires
            old(self).wf(),
            old(self).in_range(),
        ensures
            final(self).wf(),
            old(self).mode == GameMode::Playing ==> !quit && exists|gap_y: i32, objective_y: i32|
                GAP_CENTER_MIN <= gap_y < GAP_CENTER_MAX
                && OBJECTIVE_ROW_MIN <= objective_y < SCREEN_HEIGHT - 1
                && *final(self) == #[trigger] old(self).advanced(
                elapsed_us,
                asserts_input(key),
                gap_y,
                objective_y,
            ),
            old(self).mode != GameMode::Playing ==> {
                &&& quit == (key == Some(Key::Q))
                &&& key == Some(Key::P) ==> final(self).is_fresh() && final(self).mode
                    == GameMode::Playing
                &&& key != Some(Key::P) ==> *final(self) == *old(self)
            },
    {
        match self.mode {
            GameMode::Menu => self.main_menu(key),
            GameMode::End => self.dead(key),
            GameMode::Playing => {
                let space = match key {
                    Some(Key::Space) => true,
                    _ => false,
                };
                assert(space == asserts_input(key));
                self.play(elapsed_us, space);
                false
            },
        }
    }
}

/// The session at the moment collisions are resolved within a playing tick.
pub open spec fn before_resolution(s: State, elapsed_us: u32, space: bool) -> State {
    s.accumulated(elapsed_us, space).after_fixed_step().after_input()
}

/// Over a playing tick the player moves exactly one cell forward when a physics step
/// runs, and not at all otherwise.
pub proof fn lemma_x_advances_once_per_step(
    s: State,
    elapsed_us: u32,
    space: bool,
    gap_y: i32,
    objective_y: i32,
)
    requires
        s.wf(),
        s.in_range(),
    ensures
        s.advanced(elapsed_us, space, gap_y, objective_y).player.x == s.player.x + if s.accumulated(
            elapsed_us,
            space,
        ).stepping() {
            1int
        } else {
            0int
        },
{
}

/// A playing tick never leaves the player above the top row, and a player at or below the
/// bottom of the screen ends the game in that same tick.
pub proof fn lemma_bottom_is_fatal(
    s: State,
    elapsed_us: u32,
    space: bool,
    gap_y: i32,
    objective_y: i32,
)
    requires
        s.wf(),
        s.in_range(),
    ensures
        s.advanced(elapsed_us, space, gap_y, objective_y).player.y >= 0,
        s.advanced(elapsed_us, space, gap_y, objective_y).player.y >= SCREEN_HEIGHT
            ==> s.advanced(elapsed_us, space, gap_y, objective_y).mode == GameMode::End,
{
}

/// Each playing tick scores once for a passed obstacle and once for a collected objective,
/// and nothing else; a passed obstacle is replaced strictly ahead of the player, and a
/// collection restarts the score flash.
pub proof fn lemma_scoring(s: State, elapsed_us: u32, space: bool, gap_y: i32, objective_y: i32)
    requires
        s.wf(),
        s.in_range(),
        GAP_CENTER_MIN <= gap_y < GAP_CENTER_MAX,
        OBJECTIVE_ROW_MIN <= objective_y < SCREEN_HEIGHT - 1,
    ensures
        ({
            let m = before_resolution(s, elapsed_us, space);
            let r = s.advanced(elapsed_us, space, gap_y, objective_y);
            let passed = m.player.x > m.obstacle.x;
            let collected = s.objective.hits(m.player);
            &&& r.score == s.score + (if passed {
                1int
            } else {
                0int
            }) + (if collected {
                1int
            } else {
                0int
            })
            &&& passed ==> r.obstacle.x == r.player.x + SCREEN_WIDTH && r.obstacle.x
                > r.player.x
            &&& collected ==> r.player.score_animation_frame == 0
            &&& !passed && !collected ==> r.player.score_animation_frame
                == m.player.score_animation_frame
        }),
{
}

} // verus!
