//! The wall ahead of the dragon and the gap in it.

use vstd::prelude::*;
use crate::player::Player;
use crate::random::{range, range_outcome};
use crate::screen::{Draw, Sprite, SCREEN_HEIGHT};

verus! {

/// The first row in which the middle of a gap may lie.
pub const GAP_ROW_MIN: i32 = 10;

/// The row after the last one in which the middle of a gap may lie.
pub const GAP_ROW_END: i32 = 40;

/// The height of the gap at score 0.
pub const WIDEST_GAP: i32 = 20;

/// The height below which a gap never shrinks.
pub const NARROWEST_GAP: i32 = 2;

/// The height of the gap at a score: 20 less the score, but never under 2.
pub open spec fn gap_size(score: int) -> int {
    if WIDEST_GAP - score < NARROWEST_GAP {
        NARROWEST_GAP as int
    } else {
        WIDEST_GAP - score
    }
}

/// Half a gap's height, rounded towards zero.
pub open spec fn half_gap(size: int) -> int {
    if size >= 0 {
        size / 2
    } else {
        -((-size) / 2)
    }
}

/// The row that a generator draws next for the middle of a gap.
pub open spec fn next_gap_row(rng: bracket_lib::random::RandomNumberGenerator) -> int {
    range_outcome(rng, GAP_ROW_MIN as int, GAP_ROW_END as int).0
}

/// A generator after it has drawn the row of a gap.
pub open spec fn after_gap_draw(
    rng: bracket_lib::random::RandomNumberGenerator,
) -> bracket_lib::random::RandomNumberGenerator {
    range_outcome(rng, GAP_ROW_MIN as int, GAP_ROW_END as int).1
}

/// The next wall. `x` is its column in the world, `gap_y` the row in the
/// middle of its gap, and `size` the height of the gap.
#[derive(Clone, Copy, Debug, PartialEq, Eq)]
pub struct Obstacle {
    pub x: i32,
    pub gap_y: i32,
    pub size: i32,
}

impl Obstacle {
    /// The first row of the gap band.
    pub open spec fn gap_top(self) -> int {
        self.gap_y - half_gap(self.size as int)
    }

    /// The last row of the gap band.
    pub open spec fn gap_bottom(self) -> int {
        self.gap_y + half_gap(self.size as int)
    }

    /// A dragon hits the wall when it is in the wall's column and above the
    /// first or below the last row of the gap band.
    pub open spec fn hits(self, player: Player) -> bool {
        player.x == self.x && (player.y < self.gap_top() || player.y > self.gap_bottom())
    }

    /// Whether the wall's screen column, seen from a dragon in column
    /// `player_x`, and the two ends of the gap band fit `i32`.
    pub open spec fn can_render(self, player_x: int) -> bool {
        &&& i32::MIN <= self.x - player_x <= i32::MAX
        &&& i32::MIN <= self.gap_top() <= i32::MAX
        &&& i32::MIN <= self.gap_bottom() <= i32::MAX
    }

    /// The cells of the wall as a dragon in column `player_x` sees it: in
    /// screen column `x - player_x`, first the rows from 0 up to the gap
    /// band, then the rows from the last row of the band to the bottom of the
    /// screen.
    pub open spec fn wall(self, player_x: int) -> Seq<Draw> {
        let column = (self.x - player_x) as i32;
        let upper = if self.gap_top() > 0 {
            self.gap_top()
        } else {
            0
        };
        let bottom = self.gap_bottom();
        let lower = if bottom < SCREEN_HEIGHT {
            SCREEN_HEIGHT - bottom
        } else {
            0
        };
        Seq::new(upper as nat, |i: int| Draw::Glyph { column, row: i as i32, sprite: Sprite::Wall })
            + Seq::new(
            lower as nat,
            |i: int| Draw::Glyph { column, row: (bottom + i) as i32, sprite: Sprite::Wall },
        )
    }

    /// The wall in column `x` for a game at `score`, with the middle of its
    /// gap in row `gap_y`.
    pub fn with_gap(x: i32, gap_y: i32, score: i32) -> (obstacle: Obstacle)
        requires
            WIDEST_GAP - score <= i32::MAX,
        ensures
            obstacle.x == x,
            obstacle.gap_y == gap_y,
            obstacle.size == gap_size(score as int),
    {
        let size: i32 = if WIDEST_GAP - score < NARROWEST_GAP {
            NARROWEST_GAP
        } else {
            WIDEST_GAP - score
        };
        Obstacle { x, gap_y, size }
    }

    /// A wall in column `x` for a game at `score`. The generator draws the
    /// middle row of the gap from the rows 10 to 39, and is one draw further
    /// on afterwards; the rest is as in `with_gap`.
    pub fn new(x: i32, score: i32, rng: &mut bracket_lib::random::RandomNumberGenerator) -> (obstacle:
        Obstacle)
        requires
            WIDEST_GAP - score <= i32::MAX,
        ensures
            obstacle.x == x,
            GAP_ROW_MIN <= obstacle.gap_y < GAP_ROW_END,
            obstacle.gap_y == next_gap_row(*old(rng)),
            obstacle.size == gap_size(score as int),
            *final(rng) == after_gap_draw(*old(rng)),
    {
        let gap_y: i32 = range(rng, GAP_ROW_MIN, GAP_ROW_END);
        Obstacle::with_gap(x, gap_y, score)
    }

    /// Tells whether `can_render` holds for a dragon in column `player_x`.
    pub fn fits_render(&self, player_x: i32) -> (fits: bool)
        ensures
            fits == self.can_render(player_x as int),
    {
        let column: i64 = self.x as i64 - player_x as i64;
        let half: i64 = half_of(self.size);
        let top: i64 = self.gap_y as i64 - half;
        let bottom: i64 = self.gap_y as i64 + half;
        i32::MIN as i64 <= column && column <= i32::MAX as i64 && i32::MIN as i64 <= top && top
            <= i32::MAX as i64 && i32::MIN as i64 <= bottom && bottom <= i32::MAX as i64
    }

    /// The commands that draw the wall for a dragon in column `player_x`.
    pub fn render(&self, player_x: i32) -> (draws: Vec<Draw>)
        requires
            self.can_render(player_x as int),
        ensures
            draws@ == self.wall(player_x as int),
    {
        let column: i32 = self.x - player_x;
        let half: i64 = half_of(self.size);
        let top: i32 = (self.gap_y as i64 - half) as i32;
        let bottom: i32 = (self.gap_y as i64 + half) as i32;
        let ghost upper = Seq::new(
            (if top > 0 {
                top as int
            } else {
                0
            }) as nat,
            |i: int| Draw::Glyph { column, row: i as i32, sprite: Sprite::Wall },
        );
        let mut draws: Vec<Draw> = Vec::new();
        let mut y: i32 = 0;
        while y < top
            invariant
                0 <= y,
                top > 0 ==> y <= top,
                top <= 0 ==> y == 0,
                draws@ =~= Seq::new(
                    y as nat,
                    |i: int| Draw::Glyph { column, row: i as i32, sprite: Sprite::Wall },
                ),
            decreases top - y,
        {
            draws.push(Draw::Glyph { column, row: y, sprite: Sprite::Wall });
            y = y + 1;
        }
        assert(draws@ =~= upper);
        let mut y: i32 = bottom;
        while y < SCREEN_HEIGHT
            invariant
                bottom <= y,
                bottom < SCREEN_HEIGHT ==> y <= SCREEN_HEIGHT,
                bottom >= SCREEN_HEIGHT ==> y == bottom,
                draws@ =~= upper + Seq::new(
                    (y - bottom) as nat,
                    |i: int| Draw::Glyph { column, row: (bottom + i) as i32, sprite: Sprite::Wall },
                ),
            decreases SCREEN_HEIGHT - y,
        {
            draws.push(Draw::Glyph { column, row: y, sprite: Sprite::Wall });
            y = y + 1;
        }
        assert(draws@ =~= self.wall(player_x as int));
        draws
    }

    /// Tells whether the dragon hits this wall.
    pub fn hit_obstacle(&self, player: &Player) -> (hit: bool)
        ensures
            hit == self.hits(*player),
    {
        let half: i64 = half_of(self.size);
        let does_x_match = player.x == self.x;
        let player_above_gap = (player.y as i64) < self.gap_y as i64 - half;
        let player_below_gap = player.y as i64 > self.gap_y as i64 + half;
        does_x_match && (player_above_gap || player_below_gap)
    }
}

/// Half a gap's height, rounded towards zero.
fn half_of(size: i32) -> (half: i64)
    ensures
        half == half_gap(size as int),
{
    let wide: i64 = size as i64;
    if wide >= 0 {
        wide / 2
    } else {
        -((-wide) / 2)
    }
}

/// The gap is never lower than 2 rows, it has reached 2 rows at score 18 and
/// keeps them from there on, and up to score 18 it is 20 rows less the score.
pub proof fn lemma_gap_size_floor(score: int)
    ensures
        gap_size(score) >= NARROWEST_GAP,
        score >= 18 ==> gap_size(score) == NARROWEST_GAP,
        score <= 18 ==> gap_size(score) == WIDEST_GAP - score,
        gap_size(0) == WIDEST_GAP,
{
}

/// A higher score never gives a wider gap.
pub proof fn lemma_gap_never_widens(lower: int, higher: int)
    requires
        lower <= higher,
    ensures
        gap_size(higher) <= gap_size(lower),
{
}

/// A dragon in another column than the wall's does not hit it, and a dragon
/// in any row of the gap band does not hit it either. Where the gap's height
/// is not negative, the first and the last row of the band are such rows. In
/// the wall's column every row outside the band is a hit.
pub proof fn lemma_gap_band_is_safe(obstacle: Obstacle, player: Player)
    requires
        obstacle.size >= 0,
    ensures
        player.x != obstacle.x ==> !obstacle.hits(player),
        obstacle.gap_top() <= player.y <= obstacle.gap_bottom() ==> !obstacle.hits(player),
        player.y == obstacle.gap_top() ==> !obstacle.hits(player),
        player.y == obstacle.gap_bottom() ==> !obstacle.hits(player),
        obstacle.hits(player) <==> player.x == obstacle.x && !(obstacle.gap_top() <= player.y
            <= obstacle.gap_bottom()),
{
}

} // verus!
