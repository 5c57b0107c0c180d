//! The simulation core of a side-scrolling reflex game: a dragon falls under
//! gravity and has to fly through the gaps of a sequence of walls.
//!
//! The core keeps the session state and decides, tick by tick, how it changes
//! and what is to be drawn. It never draws, reads keys or measures time
//! itself: a driver hands it the key and the elapsed time of each tick and
//! carries out the `Frame` that comes back.
//!
//! Two quantities are kept in fixed point so that every rule is exact:
//! velocities are counted in fifths of a row per physics step, and times in
//! microseconds.

pub mod game;
pub mod obstacle;
pub mod player;
pub mod random;
pub mod screen;

pub use game::{GameMode, Key, State, FRAME_DURATION};
pub use obstacle::{
    after_gap_draw, gap_size, half_gap, next_gap_row, Obstacle, GAP_ROW_END, GAP_ROW_MIN,
    NARROWEST_GAP, WIDEST_GAP,
};
pub use player::{
    row_after_step, row_after_steps, velocity_after_step, velocity_after_steps, whole_rows,
    Player, FLAP_VELOCITY, GRAVITY, TERMINAL_VELOCITY, VELOCITY_SCALE,
};
pub use screen::{Draw, Frame, Message, Sprite, SCREEN_HEIGHT, SCREEN_WIDTH};
