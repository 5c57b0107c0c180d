//! The character grid and the drawing commands that the core hands to its
//! driver.

use vstd::prelude::*;

verus! {

/// Width of the character grid, in columns.
pub const SCREEN_WIDTH: i32 = 80;

/// Height of the character grid, in rows.
pub const SCREEN_HEIGHT: i32 = 50;

/// What a single cell of the grid shows.
#[derive(Clone, Copy, Debug, PartialEq, Eq)]
pub enum Sprite {
    /// The player's dragon.
    Dragon,
    /// One cell of a wall.
    Wall,
}

/// A line of text, named by what it says. The driver chooses the wording.
#[derive(Clone, Copy, Debug, PartialEq, Eq)]
pub enum Message {
    /// The title of the welcome screen.
    Welcome,
    /// The offer to start a game.
    PlayOption,
    /// The offer to leave.
    QuitOption,
    /// The announcement that the dragon has died.
    Dead,
    /// The final score of a finished game.
    Earned(i32),
    /// The reminder of the flap key.
    FlapHint,
    /// The running score.
    Score(i32),
}

/// One drawing command.
#[derive(Clone, Copy, Debug, PartialEq, Eq)]
pub enum Draw {
    /// Clear the grid to the default background.
    Clear,
    /// Clear the grid to the sky background of a running game.
    ClearSky,
    /// A message centred in a row.
    Centered { row: i32, message: Message },
    /// A message that starts at a column of a row.
    Text { column: i32, row: i32, message: Message },
    /// A sprite in one cell.
    Glyph { column: i32, row: i32, sprite: Sprite },
}

/// What one tick asks of the driver: the commands to draw, in order, and
/// whether the program is to end.
#[derive(Debug, PartialEq, Eq)]
pub struct Frame {
    pub draws: Vec<Draw>,
    pub quit: bool,
}

} // verus!
