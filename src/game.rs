//! One game: the snake, the food, the fixed-rate clock and the game-over state.

use crate::grid::{on_grid, Direction, GridPosition, InputKey, GRID_H, GRID_W};
use crate::snake::{Ate, Food, Snake, SnakeView};
use vstd::prelude::*;

verus! {

/// Logical updates per second.
pub const UPDATES_PER_SECOND: u64 = 8;

/// Milliseconds that must pass between two logical updates.
pub const MILLIS_PER_UPDATE: u64 = 1000 / UPDATES_PER_SECOND;

/// A game in progress, or one that has ended and is kept for display.
pub struct GameState {
    snake: Snake,
    food: Food,
    gameover: bool,
    /// Time of the most recent update, in milliseconds on the caller's clock.
    last_update: u64,
}

/// The game as values.
pub struct GameView {
    pub snake: SnakeView,
    pub food: GridPosition,
    pub gameover: bool,
    pub last_update: u64,
}

impl View for GameState {
    type V = GameView;

    closed spec fn view(&self) -> GameView {
        GameView {
            snake: self.snake@,
            food: self.food.pos,
            gameover: self.gameover,
            last_update: self.last_update,
        }
    }
}

/// Where a new game puts the snake's head: a quarter across, half way down.
pub open spec fn start_pos() -> GridPosition {
    GridPosition { x: (GRID_W / 4) as i16, y: (GRID_H / 2) as i16 }
}

/// The snake of a new game, moving right with one body segment.
pub open spec fn start_snake() -> SnakeView {
    SnakeView {
        head: start_pos(),
        body: seq![GridPosition { x: (start_pos().x - 1) as i16, y: start_pos().y }],
        dir: Direction::Right,
        ate: None,
        last_update_dir: Direction::Right,
    }
}

impl GameView {
    /// Whether a logical update is due at time `now`: a full interval has
    /// passed since the last one.
    pub open spec fn due(self, now: u64) -> bool {
        now >= self.last_update && now - self.last_update >= MILLIS_PER_UPDATE
    }

    /// One logical update. A finished game does not change. Otherwise the snake
    /// moves; if it ate the food, the food goes to `respawn`; if it ate itself,
    /// the game is over.
    pub open spec fn advanced(self, respawn: GridPosition) -> GameView {
        if self.gameover {
            self
        } else {
            let s = self.snake.step(self.food);
            GameView {
                snake: s,
                food: if s.ate == Some(Ate::Food) {
                    respawn
                } else {
                    self.food
                },
                gameover: s.ate == Some(Ate::Itself),
                last_update: self.last_update,
            }
        }
    }

    /// One poll of the clock at time `now`. A finished game does not change,
    /// clock included. Otherwise, when an update is due, exactly one is made
    /// and the clock restarts at `now`; when none is due, nothing changes.
    pub open spec fn ticked(self, now: u64, respawn: GridPosition) -> GameView {
        if !self.gameover && self.due(now) {
            GameView { last_update: now, ..self.advanced(respawn) }
        } else {
            self
        }
    }

    /// The game after each poll `(now, respawn)` in turn.
    pub open spec fn ticks(self, polls: Seq<(u64, GridPosition)>) -> GameView
        decreases polls.len(),
    {
        if polls.len() == 0 {
            self
        } else {
            self.ticks(polls.drop_last()).ticked(polls.last().0, polls.last().1)
        }
    }

    /// The game after a key press: an arrow is a requested direction, any
    /// other key does nothing.
    pub open spec fn key_pressed(self, key: InputKey) -> GameView {
        match Direction::spec_from_keycode(key) {
            Some(d) => GameView { snake: self.snake.turn(d), ..self },
            None => self,
        }
    }
}

impl GameState {
    /// A new game at time `now_ms` with the food at `food_pos`.
    pub fn start(food_pos: GridPosition, now_ms: u64) -> (r: Self)
        ensures
            r@ == (GameView {
                snake: start_snake(),
                food: food_pos,
                gameover: false,
                last_update: now_ms,
            }),
    {
        let snake_pos = GridPosition::new(GRID_W / 4, GRID_H / 2);
        GameState {
            snake: Snake::new(snake_pos),
            food: Food::new(food_pos),
            gameover: false,
            last_update: now_ms,
        }
    }

    /// A new game at time `now_ms`, with the food on a random cell.
    pub fn new(now_ms: u64) -> (r: Self)
        ensures
            r@.snake == start_snake(),
            on_grid(r@.food),
            !r@.gameover,
            r@.last_update == now_ms,
    {
        let food_pos = GridPosition::random(GRID_W, GRID_H);
        GameState::start(food_pos, now_ms)
    }

    /// Moves the snake once, unless the game is over, and ends the game if it
    /// ate itself. Returns whether it ate the food, which then needs a new place.
    fn advance(&mut self) -> (ate_food: bool)
        ensures
            !old(self)@.gameover ==> ate_food == (old(self)@.snake.step(old(self)@.food).ate == Some(
                Ate::Food,
            )),
            old(self)@.gameover ==> !ate_food,
            final(self)@ == (GameView { food: old(self)@.food, ..old(self)@.advanced(old(self)@.food) }),
    {
        if self.gameover {
            return false;
        }
        self.snake.update(&self.food);
        match self.snake.ate() {
            Some(Ate::Food) => true,
            Some(Ate::Itself) => {
                self.gameover = true;
                false
            },
            None => false,
        }
    }

    /// One logical update, with `respawn` as the food's new place should the
    /// snake eat it. A finished game is left as it is.
    pub fn step(&mut self, respawn: GridPosition)
        ensures
            final(self)@ == old(self)@.advanced(respawn),
    {
        if self.advance() {
            self.food = Food::new(respawn);
        }
    }

    /// Polls the clock at time `now_ms` and makes at most one logical update;
    /// food that is eaten moves to a random cell. A finished game is left
    /// entirely as it is.
    pub fn update(&mut self, now_ms: u64)
        ensures
            exists|p: GridPosition| on_grid(p) && final(self)@ == old(self)@.ticked(now_ms, p),
            old(self)@.gameover ==> final(self)@ == old(self)@,
    {
        if !self.gameover && self.update_due(now_ms) {
            if self.advance() {
                self.food = Food::new(GridPosition::random(GRID_W, GRID_H));
            }
            self.last_update = now_ms;
        }
        let ghost p = if old(self)@.due(now_ms) && !old(self)@.gameover && old(self)@.snake.step(
            old(self)@.food,
        ).ate == Some(Ate::Food) {
            self@.food
        } else {
            GridPosition { x: 0, y: 0 }
        };
        assert(on_grid(p) && self@ == old(self)@.ticked(now_ms, p));
    }

    /// Whether a logical update is due at time `now_ms`.
    pub fn update_due(&self, now_ms: u64) -> (r: bool)
        ensures
            r == self@.due(now_ms),
    {
        now_ms >= self.last_update && now_ms - self.last_update >= MILLIS_PER_UPDATE
    }

    /// Handles a key press: an arrow key requests that direction for the snake.
    pub fn key_down_event(&mut self, key: InputKey)
        ensures
            final(self)@ == old(self)@.key_pressed(key),
    {
        if let Some(dir) = Direction::from_keycode(key) {
            self.snake.turn(dir);
        }
    }

    pub fn snake(&self) -> (r: &Snake)
        ensures
            r@ == self@.snake,
    {
        &self.snake
    }

    pub fn food_pos(&self) -> (r: GridPosition)
        ensures
            r == self@.food,
    {
        self.food.pos
    }

    pub fn is_over(&self) -> (r: bool)
        ensures
            r == self@.gameover,
    {
        self.gameover
    }

    pub fn last_update(&self) -> (r: u64)
        ensures
            r == self@.last_update,
    {
        self.last_update
    }
}

/// In a running game, an update in which the snake eats the food grows the
/// body by exactly one segment and moves the food once, to the place given;
/// any other update leaves the food where it was.
pub proof fn lemma_eating_grows_and_respawns(g: GameView, respawn: GridPosition)
    requires
        !g.gameover,
    ensures
        g.snake.step(g.food).ate == Some(Ate::Food) ==> g.advanced(respawn).snake.body.len()
            == g.snake.body.len() + 1 && g.advanced(respawn).food == respawn,
        g.snake.step(g.food).ate != Some(Ate::Food) ==> g.advanced(respawn).food == g.food,
{
}

/// Once the game is over, no sequence of polls changes it: snake, food and
/// clock stay as they were, and the game stays over.
pub proof fn lemma_game_over_is_final(g: GameView, polls: Seq<(u64, GridPosition)>)
    requires
        g.gameover,
    ensures
        g.ticks(polls) == g,
    decreases polls.len(),
{
    if polls.len() > 0 {
        lemma_game_over_is_final(g, polls.drop_last());
    }
}

} // verus!
