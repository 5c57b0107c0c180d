//! The session: its modes, and what one tick does in each of them.

use vstd::prelude::*;
use crate::obstacle::{
    after_gap_draw, gap_size, next_gap_row, Obstacle, GAP_ROW_END, GAP_ROW_MIN, WIDEST_GAP,
};
use crate::player::{row_after_step, Player};
use crate::screen::{Draw, Frame, Message, Sprite, SCREEN_HEIGHT, SCREEN_WIDTH};

verus! {

/// The time, in microseconds, that has to build up before a physics step:
/// 25 milliseconds.
pub const FRAME_DURATION: u64 = 25_000;

/// What the session is doing.
#[derive(Clone, Copy, Debug, PartialEq, Eq)]
pub enum GameMode {
    /// The welcome screen, before the first game.
    Menu,
    /// A game is running.
    Playing,
    /// The dragon has died; the score is shown.
    End,
}

/// The key of a tick, by what it means to the game.
#[derive(Clone, Copy, Debug, PartialEq, Eq)]
pub enum Key {
    /// Start a game.
    Play,
    /// Leave the program.
    Quit,
    /// Flap the wings.
    Flap,
    /// Any other key: it does nothing.
    Other,
}

/// The session. `frame_time` is the time, in microseconds, that has built up
/// since the last physics step; `rng` places the gaps of new walls.
pub struct State {
    pub mode: GameMode,
    pub player: Player,
    pub frame_time: u64,
    pub obstacle: Obstacle,
    pub score: i32,
    pub rng: bracket_lib::random::RandomNumberGenerator,
}

/// The welcome screen.
pub open spec fn menu_screen() -> Seq<Draw> {
    seq![
        Draw::Clear,
        Draw::Centered { row: 5, message: Message::Welcome },
        Draw::Centered { row: 8, message: Message::PlayOption },
        Draw::Centered { row: 9, message: Message::QuitOption },
    ]
}

/// The screen after a game that ended at `score`.
pub open spec fn end_screen(score: i32) -> Seq<Draw> {
    seq![
        Draw::Clear,
        Draw::Centered { row: 5, message: Message::Dead },
        Draw::Centered { row: 6, message: Message::Earned(score) },
        Draw::Centered { row: 8, message: Message::PlayOption },
        Draw::Centered { row: 9, message: Message::QuitOption },
    ]
}

/// The screen of a running game: the sky, the dragon in column 0, the two
/// lines of text, and the wall as the dragon sees it.
pub open spec fn play_screen(player: Player, score: i32, obstacle: Obstacle) -> Seq<Draw> {
    seq![
        Draw::ClearSky,
        Draw::Glyph { column: 0, row: player.y, sprite: Sprite::Dragon },
        Draw::Text { column: 0, row: 0, message: Message::FlapHint },
        Draw::Text { column: 0, row: 1, message: Message::Score(score) },
    ] + obstacle.wall(player.x as int)
}

impl State {
    /// The state of a new session: the welcome screen is up, and behind it
    /// everything stands as at the start of a game.
    pub open spec fn is_new_session(self) -> bool {
        &&& self.mode == GameMode::Menu
        &&& self.player == Player::start()
        &&& self.frame_time == 0
        &&& self.score == 0
        &&& self.obstacle.x == Player::start().x + SCREEN_WIDTH
        &&& self.obstacle.size == gap_size(0)
        &&& GAP_ROW_MIN <= self.obstacle.gap_y < GAP_ROW_END
    }

    /// The state right after a restart: a game is running at score 0 with no
    /// time built up, the dragon is at the start position at rest, and the
    /// first wall stands one screen width ahead with the widest gap, whose
    /// middle lies in one of the rows 10 to 39.
    pub open spec fn is_fresh_game(self) -> bool {
        &&& self.mode == GameMode::Playing
        &&& self.player == Player::start()
        &&& self.frame_time == 0
        &&& self.score == 0
        &&& self.obstacle.x == Player::start().x + SCREEN_WIDTH
        &&& self.obstacle.size == gap_size(0)
        &&& GAP_ROW_MIN <= self.obstacle.gap_y < GAP_ROW_END
    }

    /// Whether a tick of `elapsed` microseconds brings a physics step: the
    /// time built up, with `elapsed` added, exceeds the frame duration.
    pub open spec fn step_due(self, elapsed: u64) -> bool {
        self.frame_time + elapsed > FRAME_DURATION
    }

    /// The dragon after a tick of a running game: first the physics step, if
    /// one is due, then the flap, if its key was pressed.
    pub open spec fn player_after(self, key: Option<Key>, elapsed: u64) -> Player {
        let moved = if self.step_due(elapsed) {
            self.player.stepped()
        } else {
            self.player
        };
        if key == Some(Key::Flap) {
            moved.flapped()
        } else {
            moved
        }
    }

    /// The dragon's column after a tick of a running game.
    pub open spec fn column_after(self, elapsed: u64) -> int {
        if self.step_due(elapsed) {
            self.player.x + 1
        } else {
            self.player.x as int
        }
    }

    /// Whether a tick of a running game keeps every number within its type:
    /// the physics step, if one is due; the wall's place on the screen; and,
    /// if the dragon gets past the wall, the new score and the next wall.
    pub open spec fn can_play(self, elapsed: u64) -> bool {
        let column = self.column_after(elapsed);
        &&& self.step_due(elapsed) ==> self.player.can_step()
        &&& self.obstacle.can_render(column)
        &&& column > self.obstacle.x ==> {
            &&& column + SCREEN_WIDTH <= i32::MAX
            &&& self.score < i32::MAX
            &&& WIDEST_GAP - (self.score + 1) <= i32::MAX
        }
    }

    /// Whether a tick keeps every number within its type. Only a running game
    /// computes anything.
    pub open spec fn can_tick(self, elapsed: u64) -> bool {
        self.mode == GameMode::Playing ==> self.can_play(elapsed)
    }

    /// What a restart makes of a state: a fresh game, the gap of its first
    /// wall where the state's generator draws it, and that generator one
    /// draw further on.
    pub open spec fn restart_outcome(pre: State, post: State) -> bool {
        &&& post.is_fresh_game()
        &&& post.obstacle.gap_y == next_gap_row(pre.rng)
        &&& post.rng == after_gap_draw(pre.rng)
    }

    /// What a tick of the welcome screen or of the end screen does with the
    /// key: the play key starts a fresh game, the quit key asks the driver to
    /// end the program, and without the play key the state stays as it is.
    pub open spec fn choice_outcome(pre: State, key: Option<Key>, post: State, frame: Frame) -> bool {
        &&& frame.quit == (key == Some(Key::Quit))
        &&& key == Some(Key::Play) ==> State::restart_outcome(pre, post)
        &&& key != Some(Key::Play) ==> post == pre
    }

    /// What a tick of the welcome screen does.
    pub open spec fn menu_outcome(pre: State, key: Option<Key>, post: State, frame: Frame) -> bool {
        &&& frame.draws@ == menu_screen()
        &&& State::choice_outcome(pre, key, post, frame)
    }

    /// What a tick of the end screen does. The score shown is the one that
    /// the game ended with.
    pub open spec fn end_outcome(pre: State, key: Option<Key>, post: State, frame: Frame) -> bool {
        &&& frame.draws@ == end_screen(pre.score)
        &&& State::choice_outcome(pre, key, post, frame)
    }

    /// What a tick of a running game does.
    ///
    /// The elapsed time is added to the time built up. If the sum exceeds the
    /// frame duration, the dragon makes one physics step, however large the
    /// sum, and the time built up starts again at 0. Then the flap key sets
    /// the flap velocity. The screen shows the dragon, the score and the wall
    /// as they are at this point. If the dragon is now past the wall, the
    /// score goes up by one and a new wall stands one screen width ahead of
    /// the dragon, its gap as high as the new score allows and its middle in
    /// the row that the generator draws, one of the rows 10 to 39; else the
    /// wall and the generator stay. Last, the game ends if the dragon is
    /// below the bottom of the screen or hits the wall; else the mode stays.
    pub open spec fn play_outcome(
        pre: State,
        key: Option<Key>,
        elapsed: u64,
        post: State,
        frame: Frame,
    ) -> bool {
        let player = pre.player_after(key, elapsed);
        let passed = player.x > pre.obstacle.x;
        &&& post.player == player
        &&& post.frame_time == if pre.step_due(elapsed) {
            0
        } else {
            pre.frame_time + elapsed
        }
        &&& post.score == if passed {
            pre.score + 1
        } else {
            pre.score as int
        }
        &&& if passed {
            &&& post.obstacle.x == player.x + SCREEN_WIDTH
            &&& post.obstacle.size == gap_size(pre.score + 1)
            &&& GAP_ROW_MIN <= post.obstacle.gap_y < GAP_ROW_END
            &&& post.obstacle.gap_y == next_gap_row(pre.rng)
            &&& post.rng == after_gap_draw(pre.rng)
        } else {
            &&& post.obstacle == pre.obstacle
            &&& post.rng == pre.rng
        }
        &&& post.mode == if player.y > SCREEN_HEIGHT || post.obstacle.hits(player) {
            GameMode::End
        } else {
            pre.mode
        }
        &&& frame.draws@ == play_screen(player, pre.score, pre.obstacle)
        &&& !frame.quit
    }

    /// What a tick does: the outcome that belongs to the mode it starts in.
    pub open spec fn tick_outcome(
        pre: State,
        key: Option<Key>,
        elapsed: u64,
        post: State,
        frame: Frame,
    ) -> bool {
        match pre.mode {
            GameMode::Menu => State::menu_outcome(pre, key, post, frame),
            GameMode::Playing => State::play_outcome(pre, key, elapsed, post, frame),
            GameMode::End => State::end_outcome(pre, key, post, frame),
        }
    }

    /// A session on the welcome screen, with a generator seeded by the
    /// machine.
    pub fn new() -> (state: State)
        ensures
            state.is_new_session(),
    {
        State::with_rng(bracket_lib::random::RandomNumberGenerator::new())
    }

    /// A session on the welcome screen that places its gaps with `rng`. The
    /// gap of the first wall is the first row that `rng` draws, and the
    /// session keeps `rng` as that draw leaves it.
    pub fn with_rng(rng: bracket_lib::random::RandomNumberGenerator) -> (state: State)
        ensures
            state.is_new_session(),
            state.obstacle.gap_y == next_gap_row(rng),
            state.rng == after_gap_draw(rng),
    {
        let mut rng = rng;
        let obstacle = Obstacle::new(SCREEN_WIDTH, 0, &mut rng);
        State { mode: GameMode::Menu, frame_time: 0, player: Player::new(5, 25), obstacle, score: 0, rng }
    }

    /// One tick of the welcome screen.
    pub fn main_menu(&mut self, key: Option<Key>) -> (frame: Frame)
        ensures
            State::menu_outcome(*old(self), key, *final(self), frame),
    {
        let mut draws: Vec<Draw> = Vec::new();
        draws.push(Draw::Clear);
        draws.push(Draw::Centered { row: 5, message: Message::Welcome });
        draws.push(Draw::Centered { row: 8, message: Message::PlayOption });
        draws.push(Draw::Centered { row: 9, message: Message::QuitOption });
        assert(draws@ =~= menu_screen());
        let quit = self.handle_choice(key);
        Frame { draws, quit }
    }

    /// Starts a game afresh, from whatever state.
    pub fn restart(&mut self)
        ensures
            State::restart_outcome(*old(self), *final(self)),
    {
        self.player = Player::new(5, 25);
        self.frame_time = 0;
        self.mode = GameMode::Playing;
        self.obstacle = Obstacle::new(SCREEN_WIDTH, 0, &mut self.rng);
        self.score = 0;
    }

    /// One tick of a running game.
    pub fn play(&mut self, key: Option<Key>, elapsed: u64) -> (frame: Frame)
        requires
            old(self).can_play(elapsed),
        ensures
            State::play_outcome(*old(self), key, elapsed, *final(self), frame),
    {
        let mut draws: Vec<Draw> = Vec::new();
        draws.push(Draw::ClearSky);
        self.frame_time = self.frame_time.saturating_add(elapsed);
        if self.frame_time > FRAME_DURATION {
            self.frame_time = 0;
            self.player.gravity_to_move();
        }
        if let Some(Key::Flap) = key {
            self.player.flap();
        }
        draws.push(self.player.render());
        draws.push(Draw::Text { column: 0, row: 0, message: Message::FlapHint });
        draws.push(Draw::Text { column: 0, row: 1, message: Message::Score(self.score) });
        let mut wall = self.obstacle.render(self.player.x);
        draws.append(&mut wall);
        assert(draws@ =~= play_screen(self.player, self.score, self.obstacle));
        if self.player.x > self.obstacle.x {
            self.score = self.score + 1;
            self.obstacle = Obstacle::new(self.player.x + SCREEN_WIDTH, self.score, &mut self.rng);
        }
        if self.player.y > SCREEN_HEIGHT || self.obstacle.hit_obstacle(&self.player) {
            self.mode = GameMode::End;
        }
        Frame { draws, quit: false }
    }

    /// One tick of the end screen.
    pub fn dead(&mut self, key: Option<Key>) -> (frame: Frame)
        ensures
            State::end_outcome(*old(self), key, *final(self), frame),
    {
        let mut draws: Vec<Draw> = Vec::new();
        draws.push(Draw::Clear);
        draws.push(Draw::Centered { row: 5, message: Message::Dead });
        draws.push(Draw::Centered { row: 6, message: Message::Earned(self.score) });
        draws.push(Draw::Centered { row: 8, message: Message::PlayOption });
        draws.push(Draw::Centered { row: 9, message: Message::QuitOption });
        assert(draws@ =~= end_screen(self.score));
        let quit = self.handle_choice(key);
        Frame { draws, quit }
    }

    /// One tick: what the mode at its start asks for. `key` is the key that
    /// was pressed, if any, and `elapsed` the time since the last tick, in
    /// microseconds.
    pub fn tick(&mut self, key: Option<Key>, elapsed: u64) -> (frame: Frame)
        requires
            old(self).can_tick(elapsed),
        ensures
            State::tick_outcome(*old(self), key, elapsed, *final(self), frame),
    {
        match self.mode {
            GameMode::Menu => self.main_menu(key),
            GameMode::Playing => self.play(key, elapsed),
            GameMode::End => self.dead(key),
        }
    }

    /// Tells whether `can_play` holds.
    pub fn fits_play(&self, elapsed: u64) -> (fits: bool)
        ensures
            fits == self.can_play(elapsed),
    {
        let due = self.frame_time.saturating_add(elapsed) > FRAME_DURATION;
        if due && !self.player.fits_step() {
            return false;
        }
        let column: i32 = if due {
            self.player.x + 1
        } else {
            self.player.x
        };
        if !self.obstacle.fits_render(column) {
            return false;
        }
        if column > self.obstacle.x {
            column <= i32::MAX - SCREEN_WIDTH && self.score < i32::MAX && self.score >= WIDEST_GAP
                - 1 - i32::MAX
        } else {
            true
        }
    }

    /// Tells whether `can_tick` holds.
    pub fn fits_tick(&self, elapsed: u64) -> (fits: bool)
        ensures
            fits == self.can_tick(elapsed),
    {
        match self.mode {
            GameMode::Playing => self.fits_play(elapsed),
            _ => true,
        }
    }

    /// What the welcome screen and the end screen do with the key. Returns
    /// whether the program is to end.
    fn handle_choice(&mut self, key: Option<Key>) -> (quit: bool)
        ensures
            quit == (key == Some(Key::Quit)),
            key == Some(Key::Play) ==> State::restart_outcome(*old(self), *final(self)),
            key != Some(Key::Play) ==> *final(self) == *old(self),
    {
        match key {
            Some(Key::Play) => {
                self.restart();
                false
            },
            Some(Key::Quit) => true,
            _ => false,
        }
    }
}

/// On the welcome screen and on the end screen a tick without the play key
/// leaves the mode, and all of the state, as it was; and without the quit key
/// it does not ask the program to end.
pub proof fn lemma_idle_tick_keeps_mode(
    pre: State,
    key: Option<Key>,
    elapsed: u64,
    post: State,
    frame: Frame,
)
    requires
        pre.mode != GameMode::Playing,
        key != Some(Key::Play),
        State::tick_outcome(pre, key, elapsed, post, frame),
    ensures
        post.mode == pre.mode,
        post == pre,
        key != Some(Key::Quit) ==> !frame.quit,
{
}

/// On the welcome screen and on the end screen the play key starts a fresh
/// game, whatever the state was.
pub proof fn lemma_play_key_restarts(
    pre: State,
    elapsed: u64,
    post: State,
    frame: Frame,
)
    requires
        pre.mode != GameMode::Playing,
        State::tick_outcome(pre, Some(Key::Play), elapsed, post, frame),
    ensures
        post.is_fresh_game(),
        post.mode == GameMode::Playing,
        post.score == 0,
        post.frame_time == 0,
        post.player == (Player { x: 0, y: 0, velocity: 0 }),
        post.obstacle.x == 80,
        post.obstacle.size == 20,
{
}

/// A tick of a running game makes one physics step if the time built up, with
/// the elapsed time, exceeds the frame duration, and none otherwise. The step
/// moves the dragon one column, never more, however long the elapsed time,
/// and the time built up starts again at 0; without a step the dragon stays
/// where it is and the elapsed time is added to the time built up.
pub proof fn lemma_one_step_per_tick(
    pre: State,
    key: Option<Key>,
    elapsed: u64,
    post: State,
    frame: Frame,
)
    requires
        pre.can_play(elapsed),
        State::play_outcome(pre, key, elapsed, post, frame),
    ensures
        pre.frame_time + elapsed > FRAME_DURATION ==> {
            &&& post.frame_time == 0
            &&& post.player.x == pre.player.x + 1
            &&& post.player.y == row_after_step(pre.player.y as int, pre.player.velocity as int)
        },
        pre.frame_time + elapsed <= FRAME_DURATION ==> {
            &&& post.frame_time == pre.frame_time + elapsed
            &&& post.player.x == pre.player.x
            &&& post.player.y == pre.player.y
        },
        post.player.y >= 0 || post.player.y == pre.player.y,
{
}

/// The dragon's column never goes back, and no wall is skipped: a dragon that
/// was not yet past the wall and gets past it in a tick was in the wall's
/// column before that tick, where the tick before it has tested the hit.
pub proof fn lemma_no_wall_is_skipped(
    pre: State,
    key: Option<Key>,
    elapsed: u64,
    post: State,
    frame: Frame,
)
    requires
        pre.can_play(elapsed),
        State::play_outcome(pre, key, elapsed, post, frame),
    ensures
        post.player.x >= pre.player.x,
        pre.player.x <= pre.obstacle.x && post.player.x > pre.obstacle.x ==> pre.player.x
            == pre.obstacle.x,
{
}

/// When the dragon gets past the wall, the score goes up by one and the next
/// wall stands one screen width ahead of the dragon, further on than the wall
/// before it, with a gap no higher than the score before allowed. Until then
/// the wall and the score stay.
pub proof fn lemma_walls_move_ahead(
    pre: State,
    key: Option<Key>,
    elapsed: u64,
    post: State,
    frame: Frame,
)
    requires
        pre.can_play(elapsed),
        State::play_outcome(pre, key, elapsed, post, frame),
    ensures
        post.player.x > pre.obstacle.x ==> {
            &&& post.score == pre.score + 1
            &&& post.obstacle.x == post.player.x + SCREEN_WIDTH
            &&& post.obstacle.x > pre.obstacle.x
            &&& post.obstacle.size == gap_size(post.score as int)
            &&& post.obstacle.size <= gap_size(pre.score as int)
            &&& post.obstacle.size >= 2
        },
        post.player.x <= pre.obstacle.x ==> post.obstacle == pre.obstacle && post.score
            == pre.score,
{
}

/// A tick of a running game that leaves the dragon below the bottom of the
/// screen ends the game in that tick. The score is not reset: it is the score
/// from before the tick, one higher if the dragon got past the wall in this
/// tick.
pub proof fn lemma_fall_ends_game(
    pre: State,
    key: Option<Key>,
    elapsed: u64,
    post: State,
    frame: Frame,
)
    requires
        State::play_outcome(pre, key, elapsed, post, frame),
        post.player.y > SCREEN_HEIGHT,
    ensures
        post.mode == GameMode::End,
        post.score == pre.score || post.score == pre.score + 1,
        post.score == pre.score + 1 <==> post.player.x > pre.obstacle.x,
{
}

/// A tick of a running game ends the game exactly when the dragon is below
/// the bottom of the screen or hits the wall that then stands; a game that
/// goes on keeps its mode.
pub proof fn lemma_game_ends_on_fall_or_hit(
    pre: State,
    key: Option<Key>,
    elapsed: u64,
    post: State,
    frame: Frame,
)
    requires
        pre.mode == GameMode::Playing,
        State::play_outcome(pre, key, elapsed, post, frame),
    ensures
        post.mode == GameMode::End <==> post.player.y > SCREEN_HEIGHT || post.obstacle.hits(
            post.player,
        ),
        post.mode == GameMode::End || post.mode == GameMode::Playing,
{
}

} // verus!
