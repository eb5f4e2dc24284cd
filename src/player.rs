use vstd::prelude::*;
use crate::config::{
    DIVING_GRAVITY, FALLING_GRAVITY, FLAPPING_ANIMATION_LENGTH, FLAP_ACCELERATION_STEP,
    FLAP_DURATION, FLAP_INIT_ACCELERATION, MAX_FLAPPING_VELOCITY, SCORE_ANIMATION_LENGTH,
    TERMINAL_DIVING_VELOCITY, TERMINAL_FALLING_VELOCITY, VELOCITY_LIMIT, VELOCITY_SCALE,
    X_LIMIT, Y_LIMIT,
};

verus! {

/// Which acceleration law governs the player.
#[derive(PartialEq, Eq, Structural, Clone, Copy, Debug)]
pub enum PlayerState {
    Falling,
    Flapping,
    Diving,
}

/// The dragon: position, fixed-point vertical velocity and animation counters.
#[derive(Clone, Copy, Debug)]
pub struct Player {
    /// Scroll distance travelled; one cell per physics step.
    pub x: i32,
    /// Row on screen; never negative.
    pub y: i32,
    /// Vertical speed in hundredths of a cell per step; positive is downwards.
    pub velocity: i32,
    /// Steps since the current flap began.
    pub flap_frame: usize,
    pub state: PlayerState,
    /// Consecutive steps the dive input has been held.
    pub dive_counter: usize,
    /// Frame of the colour flash played after scoring.
    pub score_animation_frame: usize,
}

/// Whole cells moved by a velocity: its value in cells, rounded down.
pub open spec fn cells_of(v: int) -> int {
    v / VELOCITY_SCALE as int
}

/// Flap thrust on a given flap frame.
pub open spec fn flap_acceleration(frame: int) -> int {
    FLAP_INIT_ACCELERATION + FLAP_ACCELERATION_STEP * frame
}

/// `v` accelerated by `gravity`, never past `terminal`; a velocity already at or past
/// `terminal` is left as it is.
pub open spec fn accelerated(v: int, gravity: int, terminal: int) -> int {
    if v >= terminal {
        v
    } else if v + gravity > terminal {
        terminal
    } else {
        v + gravity
    }
}

/// Velocity after one step of the law for `state`.
pub open spec fn next_velocity(state: PlayerState, v: int, frame: int) -> int {
    match state {
        PlayerState::Falling => if v < TERMINAL_FALLING_VELOCITY {
            accelerated(v, FALLING_GRAVITY as int, TERMINAL_FALLING_VELOCITY as int)
        } else {
            TERMINAL_FALLING_VELOCITY as int
        },
        PlayerState::Diving => if v < TERMINAL_DIVING_VELOCITY {
            accelerated(v, DIVING_GRAVITY as int, TERMINAL_DIVING_VELOCITY as int)
        } else {
            TERMINAL_DIVING_VELOCITY as int
        },
        PlayerState::Flapping => {
            let g = accelerated(v, FALLING_GRAVITY as int, TERMINAL_FALLING_VELOCITY as int);
            if g > MAX_FLAPPING_VELOCITY && g + flap_acceleration(frame) > MAX_FLAPPING_VELOCITY {
                g + flap_acceleration(frame)
            } else {
                MAX_FLAPPING_VELOCITY as int
            }
        },
    }
}

/// `v` accelerated by `gravity`, never past `terminal`.
fn accelerate(v: i32, gravity: i32, terminal: i32) -> (r: i32)
    requires
        -VELOCITY_LIMIT <= v <= VELOCITY_LIMIT,
        0 <= gravity <= VELOCITY_LIMIT,
        -VELOCITY_LIMIT <= terminal <= VELOCITY_LIMIT,
    ensures
        r == accelerated(v as int, gravity as int, terminal as int),
{
    if v >= terminal {
        v
    } else if v + gravity > terminal {
        terminal
    } else {
        v + gravity
    }
}

/// Glyph drawn for a falling player.
pub const FALLING_CHAR: char = '~';

/// Glyph drawn for a diving player.
pub const DIVING_CHAR: char = 'v';

/// Glyphs of the flapping animation, in order.
pub open spec fn flapping_glyph(i: int) -> char {
    if i == 1 {
        'V'
    } else if i == 3 {
        '_'
    } else if i == 4 {
        '-'
    } else if i == 6 {
        'A'
    } else if i == 0 || i == 2 {
        'v'
    } else {
        '^'
    }
}

impl Player {
    /// The glyph this player is drawn with.
    pub open spec fn glyph_spec(self) -> char {
        match self.state {
            PlayerState::Falling => FALLING_CHAR,
            PlayerState::Flapping => flapping_glyph(
                self.flap_frame as int / (FLAP_DURATION / FLAPPING_ANIMATION_LENGTH) as int,
            ),
            PlayerState::Diving => DIVING_CHAR,
        }
    }

    /// Counters are consistent with the state, and the player is on or below the top row.
    pub open spec fn wf(self) -> bool {
        &&& 0 <= self.y
        &&& self.flap_frame < FLAP_DURATION
        &&& self.state != PlayerState::Flapping ==> self.flap_frame == 0
        &&& self.score_animation_frame < SCORE_ANIMATION_LENGTH
    }

    /// Magnitudes small enough that a step cannot overflow.
    pub open spec fn in_range(self) -> bool {
        &&& self.x < X_LIMIT
        &&& self.y <= Y_LIMIT
        &&& -VELOCITY_LIMIT <= self.velocity <= VELOCITY_LIMIT
        &&& self.dive_counter < usize::MAX
    }

    /// The player after switching to `state`, with the counters of the entered state reset.
    pub open spec fn with_state(self, state: PlayerState) -> Player {
        if self.state == state {
            self
        } else {
            match state {
                PlayerState::Flapping => Player { dive_counter: 0, state, ..self },
                PlayerState::Falling => Player { dive_counter: 0, flap_frame: 0, state, ..self },
                PlayerState::Diving => Player { flap_frame: 0, state, ..self },
            }
        }
    }

    /// The player after one physics step.
    pub open spec fn stepped(self) -> Player {
        let v = next_velocity(self.state, self.velocity as int, self.flap_frame as int);
        let y = self.y + cells_of(v);
        Player {
            x: (self.x + 1) as i32,
            y: if y < 0 { 0 } else { y as i32 },
            velocity: v as i32,
            ..self
        }
    }

    /// The player after the flap animation advanced one frame.
    pub open spec fn flap_advanced(self) -> Player {
        if self.state == PlayerState::Flapping {
            let p = Player { flap_frame: (self.flap_frame + 1) as usize, ..self };
            if p.flap_frame == FLAP_DURATION {
                p.with_state(PlayerState::Falling)
            } else {
                p
            }
        } else {
            self
        }
    }

    /// A falling player at rest at the given position, with no flash playing.
    pub open spec fn new_spec(x: i32, y: i32) -> Player {
        Player {
            x,
            y,
            velocity: 0,
            flap_frame: 0,
            state: PlayerState::Falling,
            dive_counter: 0,
            score_animation_frame: (SCORE_ANIMATION_LENGTH - 1) as usize,
        }
    }

    /// A falling player at rest at the given position, with no flash playing.
    pub fn new(x: i32, y: i32) -> (r: Self)
        ensures
            r == Player::new_spec(x, y),
    {
        Player {
            x,
            y,
            velocity: 0,
            flap_frame: 0,
            state: PlayerState::Falling,
            dive_counter: 0,
            score_animation_frame: SCORE_ANIMATION_LENGTH - 1,
        }
    }

    /// Switches the locomotion state, resetting the counters of the state entered;
    /// re-entering the current state changes nothing.
    pub fn set_state(&mut self, state: PlayerState)
        ensures
            *final(self) == old(self).with_state(state),
    {
        if self.state == state {
            return;
        }
        match state {
            PlayerState::Flapping => {
                self.dive_counter = 0;
            },
            PlayerState::Falling => {
                self.dive_counter = 0;
                self.flap_frame = 0;
            },
            PlayerState::Diving => {
                self.flap_frame = 0;
            },
        }
        self.state = state;
    }

    /// One physics step: the acceleration law of the current state, then
    /// `y += floor(velocity)`, `x += 1`, and `y` clamped at zero.
    pub fn gravity_and_move(&mut self)
        requires
            old(self).wf(),
            old(self).in_range(),
        ensures
            *final(self) == old(self).stepped(),
    {
        match self.state {
            PlayerState::Falling => {
                if self.velocity < TERMINAL_FALLING_VELOCITY {
                    self.velocity = accelerate(
                        self.velocity,
                        FALLING_GRAVITY,
                        TERMINAL_FALLING_VELOCITY,
                    );
                } else {
                    self.velocity = TERMINAL_FALLING_VELOCITY;
                }
            },
            PlayerState::Diving => {
                if self.velocity < TERMINAL_DIVING_VELOCITY {
                    self.velocity = accelerate(
                        self.velocity,
                        DIVING_GRAVITY,
                        TERMINAL_DIVING_VELOCITY,
                    );
                } else {
                    self.velocity = TERMINAL_DIVING_VELOCITY;
                }
            },
            PlayerState::Flapping => {
                // gravity still pulls, up to the falling terminal velocity
                self.velocity = accelerate(
                    self.velocity,
                    FALLING_GRAVITY,
                    TERMINAL_FALLING_VELOCITY,
                );
                // the thrust tapers as the flap progresses
                let thrust = FLAP_INIT_ACCELERATION + FLAP_ACCELERATION_STEP
                    * (self.flap_frame as i32);
                if self.velocity > MAX_FLAPPING_VELOCITY && self.velocity + thrust
                    > MAX_FLAPPING_VELOCITY {
                    self.velocity = self.velocity + thrust;
                } else {
                    self.velocity = MAX_FLAPPING_VELOCITY;
                }
            },
        }
        let cells = if self.velocity >= 0 {
            self.velocity / VELOCITY_SCALE
        } else {
            -((-self.velocity + VELOCITY_SCALE - 1) / VELOCITY_SCALE)
        };
        self.y = self.y + cells;
        self.x = self.x + 1;
        if self.y < 0 {
            self.y = 0;
        }
    }

    /// Advances a running flap by one frame; a flap that reaches its duration ends in a fall.
    pub fn handle_flap(&mut self)
        requires
            old(self).wf(),
        ensures
            *final(self) == old(self).flap_advanced(),
    {
        if self.state == PlayerState::Flapping {
            self.flap_frame = self.flap_frame + 1;
            if self.flap_frame == FLAP_DURATION {
                self.set_state(PlayerState::Falling);
            }
        }
    }

    /// The glyph drawn for this player: fixed while falling or diving, and the flap frame's
    /// step of the animation while flapping.
    pub fn glyph(&self) -> (r: char)
        requires
            self.wf(),
        ensures
            r == self.glyph_spec(),
    {
        match self.state {
            PlayerState::Falling => FALLING_CHAR,
            PlayerState::Diving => DIVING_CHAR,
            PlayerState::Flapping => {
                let i = self.flap_glyph_index();
                if i == 1 {
                    'V'
                } else if i == 3 {
                    '_'
                } else if i == 4 {
                    '-'
                } else if i == 6 {
                    'A'
                } else if i == 0 || i == 2 {
                    'v'
                } else {
                    '^'
                }
            },
        }
    }

    /// Index of the glyph drawn for the current flap frame.
    pub fn flap_glyph_index(&self) -> (r: usize)
        requires
            self.wf(),
        ensures
            r == self.flap_frame / (FLAP_DURATION / FLAPPING_ANIMATION_LENGTH),
            r < FLAPPING_ANIMATION_LENGTH,
    {
        self.flap_frame / (FLAP_DURATION / FLAPPING_ANIMATION_LENGTH)
    }
}

/// A physics step never takes a falling or diving player past its terminal velocity, nor
/// a flapping player past the rise cap.
pub proof fn lemma_velocity_limits(p: Player)
    requires
        p.wf(),
        p.in_range(),
    ensures
        p.state == PlayerState::Falling ==> p.stepped().velocity <= TERMINAL_FALLING_VELOCITY,
        p.state == PlayerState::Diving ==> p.stepped().velocity <= TERMINAL_DIVING_VELOCITY,
        p.state == PlayerState::Flapping ==> p.stepped().velocity >= MAX_FLAPPING_VELOCITY,
{
}

/// A flap ends in a fall on exactly the frame its counter reaches the flap duration,
/// and a running flap never holds a counter at or past that duration.
pub proof fn lemma_flap_expires(p: Player)
    requires
        p.wf(),
        p.state == PlayerState::Flapping,
    ensures
        p.flap_advanced().wf(),
        (p.flap_frame + 1 == FLAP_DURATION) <==> p.flap_advanced().state
            == PlayerState::Falling,
        p.flap_advanced().state == PlayerState::Flapping ==> p.flap_advanced().flap_frame
            == p.flap_frame + 1,
{
}

} // verus!
