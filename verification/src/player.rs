//! The dragon: where it is, how fast it falls, and how gravity moves it.

use vstd::prelude::*;
use crate::screen::{Draw, Sprite};

verus! {

/// How many velocity units make one row per physics step.
pub const VELOCITY_SCALE: i32 = 5;

/// What one physics step adds to the velocity: a fifth of a row per step.
pub const GRAVITY: i32 = 1;

/// From this velocity on, one row per step, gravity adds nothing more.
pub const TERMINAL_VELOCITY: i32 = 5;

/// The velocity that a flap sets: two rows per step, upwards.
pub const FLAP_VELOCITY: i32 = -10;

/// The whole rows in a velocity, rounded towards zero.
pub open spec fn whole_rows(velocity: int) -> int {
    if velocity >= 0 {
        velocity / VELOCITY_SCALE as int
    } else {
        -((-velocity) / VELOCITY_SCALE as int)
    }
}

/// The velocity after one physics step: gravity adds one unit as long as the
/// velocity is below the terminal velocity.
pub open spec fn velocity_after_step(velocity: int) -> int {
    if velocity < TERMINAL_VELOCITY {
        velocity + GRAVITY
    } else {
        velocity
    }
}

/// The row after one physics step: the row moves by the whole rows of the new
/// velocity and stops at the top of the screen, row 0.
pub open spec fn row_after_step(y: int, velocity: int) -> int {
    let moved = y + whole_rows(velocity_after_step(velocity));
    if moved < 0 {
        0
    } else {
        moved
    }
}

/// The velocity after `steps` physics steps without a flap.
pub open spec fn velocity_after_steps(velocity: int, steps: nat) -> int
    decreases steps,
{
    if steps == 0 {
        velocity
    } else {
        velocity_after_steps(velocity_after_step(velocity), (steps - 1) as nat)
    }
}

/// The row after `steps` physics steps without a flap.
pub open spec fn row_after_steps(y: int, velocity: int, steps: nat) -> int
    decreases steps,
{
    if steps == 0 {
        y
    } else {
        row_after_steps(
            row_after_step(y, velocity),
            velocity_after_step(velocity),
            (steps - 1) as nat,
        )
    }
}

/// The dragon. `x` is its column in the world, `y` its row on the screen, and
/// `velocity` its fall in fifths of a row per physics step (negative: it
/// rises).
#[derive(Clone, Copy, Debug, PartialEq, Eq)]
pub struct Player {
    pub x: i32,
    pub y: i32,
    pub velocity: i32,
}

impl Player {
    /// The dragon at the start of a game: column 0, row 0, at rest.
    pub open spec fn start() -> Player {
        Player { x: 0, y: 0, velocity: 0 }
    }

    /// Whether a physics step keeps the column and the row within `i32`.
    pub open spec fn can_step(self) -> bool {
        self.x < i32::MAX && row_after_step(self.y as int, self.velocity as int) <= i32::MAX
    }

    /// The dragon after one physics step.
    pub open spec fn stepped(self) -> Player {
        Player {
            x: (self.x + 1) as i32,
            y: row_after_step(self.y as int, self.velocity as int) as i32,
            velocity: velocity_after_step(self.velocity as int) as i32,
        }
    }

    /// The dragon after a flap.
    pub open spec fn flapped(self) -> Player {
        Player { x: self.x, y: self.y, velocity: FLAP_VELOCITY }
    }

    /// A dragon at the start position. The position asked for is not used:
    /// every game starts at column 0, row 0, at rest.
    pub fn new(_x: i32, _y: i32) -> (player: Player)
        ensures
            player == Player::start(),
    {
        Player { x: 0, y: 0, velocity: 0 }
    }

    /// The command that draws the dragon: it is always shown in column 0 of
    /// the screen, in its row.
    pub fn render(&self) -> (draw: Draw)
        ensures
            draw == (Draw::Glyph { column: 0, row: self.y, sprite: Sprite::Dragon }),
    {
        Draw::Glyph { column: 0, row: self.y, sprite: Sprite::Dragon }
    }

    /// Tells whether `can_step` holds.
    pub fn fits_step(&self) -> (fits: bool)
        ensures
            fits == self.can_step(),
    {
        let velocity: i64 = if self.velocity < TERMINAL_VELOCITY {
            self.velocity as i64 + GRAVITY as i64
        } else {
            self.velocity as i64
        };
        let moved: i64 = self.y as i64 + rows_of(velocity);
        self.x < i32::MAX && moved <= i32::MAX as i64
    }

    /// One physics step. Gravity adds one unit to the velocity unless it has
    /// reached the terminal velocity; the row moves by the whole rows of the
    /// new velocity and stops at row 0; the column advances by one.
    pub fn gravity_to_move(&mut self)
        requires
            old(self).can_step(),
        ensures
            final(self).velocity == velocity_after_step(old(self).velocity as int),
            final(self).y == row_after_step(old(self).y as int, old(self).velocity as int),
            final(self).x == old(self).x + 1,
            final(self).y >= 0,
            *final(self) == old(self).stepped(),
    {
        if self.velocity < TERMINAL_VELOCITY {
            self.velocity = self.velocity + GRAVITY;
        }
        let moved: i64 = self.y as i64 + rows_of(self.velocity as i64);
        self.x = self.x + 1;
        if moved < 0 {
            self.y = 0;
        } else {
            self.y = moved as i32;
        }
    }

    /// A flap: the velocity becomes the flap velocity, whatever it was.
    pub fn flap(&mut self)
        ensures
            final(self).velocity == FLAP_VELOCITY,
            final(self).x == old(self).x,
            final(self).y == old(self).y,
            *final(self) == old(self).flapped(),
    {
        self.velocity = FLAP_VELOCITY;
    }
}

/// The whole rows in a velocity that fits 32 bits, rounded towards zero.
fn rows_of(velocity: i64) -> (rows: i64)
    requires
        i32::MIN <= velocity <= i32::MAX,
    ensures
        rows == whole_rows(velocity as int),
{
    if velocity >= 0 {
        velocity / VELOCITY_SCALE as i64
    } else {
        -((-velocity) / VELOCITY_SCALE as i64)
    }
}

/// After one physics step or more the row is never negative, and a row that
/// was not negative stays so after any number of steps.
pub proof fn lemma_row_never_negative(y: int, velocity: int, steps: nat)
    requires
        y >= 0 || steps >= 1,
    ensures
        row_after_steps(y, velocity, steps) >= 0,
    decreases steps,
{
    if steps > 0 {
        lemma_row_never_negative(
            row_after_step(y, velocity),
            velocity_after_step(velocity),
            (steps - 1) as nat,
        );
    }
}

/// Below the terminal velocity a physics step adds exactly one unit; from the
/// terminal velocity on it adds nothing. A step never lowers the velocity.
pub proof fn lemma_gravity_accumulates(velocity: int)
    ensures
        velocity < TERMINAL_VELOCITY ==> velocity_after_step(velocity) == velocity + GRAVITY,
        velocity >= TERMINAL_VELOCITY ==> velocity_after_step(velocity) == velocity,
        velocity_after_step(velocity) >= velocity,
{
}

/// Without a flap the velocity climbs one unit per step up to the terminal
/// velocity and rests there: from a velocity that is not above it, `steps`
/// steps give the smaller of `velocity + steps` and the terminal velocity.
pub proof fn lemma_velocity_after_steps(velocity: int, steps: nat)
    requires
        velocity <= TERMINAL_VELOCITY,
    ensures
        velocity_after_steps(velocity, steps) == if velocity + steps < TERMINAL_VELOCITY {
            velocity + steps
        } else {
            TERMINAL_VELOCITY as int
        },
    decreases steps,
{
    if steps > 0 {
        lemma_velocity_after_steps(velocity_after_step(velocity), (steps - 1) as nat);
    }
}

} // verus!
