//! Coordinates on the wrapped grid, the four directions, and random cells.

use rand::Rng;
use vstd::arithmetic::div_mod::lemma_fundamental_div_mod;
use vstd::arithmetic::div_mod::lemma_fundamental_div_mod_converse;
use vstd::prelude::*;

verus! {

/// Width of the board, in cells.
pub const GRID_W: i16 = 30;

/// Height of the board, in cells.
pub const GRID_H: i16 = 20;

/// Side of one square cell, in pixels.
pub const CELL_SIZE: i32 = 32;

/// Maps any integer onto `[0, n)`: the Euclidean residue of `x` modulo `n`,
/// so that stepping off one edge re-enters at the opposite one.
pub fn wrap(x: i32, n: i32) -> (r: i32)
    requires
        n > 0,
    ensures
        r == x as int % n as int,
{
    let m: i32 = x % n;
    proof {
        if x < 0 {
            let a: int = -(x as int);
            lemma_fundamental_div_mod(a, n as int);
            let q: int = a / n as int;
            let s: int = a % n as int;
            if s == 0 {
                assert(x as int == (-q) * n as int + 0) by (nonlinear_arith)
                    requires
                        a == q * n + s,
                        s == 0,
                        x as int == -a,
                ;
                lemma_fundamental_div_mod_converse(x as int, n as int, -q, 0);
            } else {
                assert(x as int == (-q - 1) * n as int + (n - s)) by (nonlinear_arith)
                    requires
                        a == q * n + s,
                        x as int == -a,
                ;
                lemma_fundamental_div_mod_converse(x as int, n as int, -q - 1, n - s);
            }
        }
    }
    if m < 0 {
        m + n
    } else {
        m
    }
}

/// `wrap` always lands in `[0, n)`, and wrapping a wrapped value changes nothing.
pub proof fn lemma_wrap_in_range_and_idempotent(x: int, n: int)
    requires
        n > 0,
    ensures
        0 <= x % n < n,
        (x % n) % n == x % n,
{
    lemma_fundamental_div_mod(x, n);
    let r = x % n;
    lemma_fundamental_div_mod_converse(r, n, 0, r);
}

/// A cell of the board.
#[derive(Clone, Copy, PartialEq, Eq, Debug, Structural)]
pub struct GridPosition {
    pub x: i16,
    pub y: i16,
}

/// The four directions in which the snake can travel.
#[derive(Clone, Copy, PartialEq, Eq, Debug, Structural)]
pub enum Direction {
    Up,
    Down,
    Left,
    Right,
}

/// A raw key as the input source reports it: one of the four arrows, or any
/// other key.
#[derive(Clone, Copy, PartialEq, Eq, Debug, Structural)]
pub enum InputKey {
    Up,
    Down,
    Left,
    Right,
    Other,
}

/// Whether a position lies on the board.
pub open spec fn on_grid(p: GridPosition) -> bool {
    0 <= p.x < GRID_W && 0 <= p.y < GRID_H
}

/// The cell one step from `pos` in direction `dir`, wrapping at the edges.
pub open spec fn moved(pos: GridPosition, dir: Direction) -> GridPosition {
    match dir {
        Direction::Up => GridPosition { x: pos.x, y: ((pos.y - 1) % (GRID_H as int)) as i16 },
        Direction::Down => GridPosition { x: pos.x, y: ((pos.y + 1) % (GRID_H as int)) as i16 },
        Direction::Left => GridPosition { x: ((pos.x - 1) % (GRID_W as int)) as i16, y: pos.y },
        Direction::Right => GridPosition { x: ((pos.x + 1) % (GRID_W as int)) as i16, y: pos.y },
    }
}

/// Relies on rand's `thread_rng` and `Rng::gen_range(low, high)`, which returns a
/// value in `[low, high)` and panics when `low >= high`.
#[verifier::external_body]
fn random_below(max: i16) -> (r: i16)
    requires
        max > 0,
    ensures
        0 <= r < max,
{
    rand::thread_rng().gen_range::<i16, i16, i16>(0, max)
}

impl GridPosition {
    pub fn new(x: i16, y: i16) -> (r: Self)
        ensures
            r == (GridPosition { x, y }),
    {
        GridPosition { x, y }
    }

    /// A random cell with `0 <= x < max_x` and `0 <= y < max_y`; it may be one
    /// that the snake occupies.
    pub fn random(max_x: i16, max_y: i16) -> (r: Self)
        requires
            max_x > 0,
            max_y > 0,
        ensures
            0 <= r.x < max_x,
            0 <= r.y < max_y,
    {
        let x = random_below(max_x);
        let y = random_below(max_y);
        GridPosition { x, y }
    }

    /// The cell one step from `pos` in direction `dir`, wrapping around the board.
    pub fn new_from_move(pos: GridPosition, dir: Direction) -> (r: Self)
        ensures
            r == moved(pos, dir),
            on_grid(pos) ==> on_grid(r),
    {
        proof {
            lemma_wrap_in_range_and_idempotent(pos.x - 1, GRID_W as int);
            lemma_wrap_in_range_and_idempotent(pos.x + 1, GRID_W as int);
            lemma_wrap_in_range_and_idempotent(pos.y - 1, GRID_H as int);
            lemma_wrap_in_range_and_idempotent(pos.y + 1, GRID_H as int);
        }
        match dir {
            Direction::Up => GridPosition::new(pos.x, wrap(pos.y as i32 - 1, GRID_H as i32) as i16),
            Direction::Down => GridPosition::new(pos.x, wrap(pos.y as i32 + 1, GRID_H as i32) as i16),
            Direction::Left => GridPosition::new(wrap(pos.x as i32 - 1, GRID_W as i32) as i16, pos.y),
            Direction::Right => GridPosition::new(wrap(pos.x as i32 + 1, GRID_W as i32) as i16, pos.y),
        }
    }

    /// The pixel rectangle `(left, top, width, height)` that this cell fills.
    pub fn cell_rect(self) -> (r: (i32, i32, i32, i32))
        ensures
            r.0 == self.x * CELL_SIZE,
            r.1 == self.y * CELL_SIZE,
            r.2 == CELL_SIZE,
            r.3 == CELL_SIZE,
    {
        (self.x as i32 * CELL_SIZE, self.y as i32 * CELL_SIZE, CELL_SIZE, CELL_SIZE)
    }
}

impl Direction {
    /// The opposite direction: up and down, left and right.
    pub open spec fn spec_inverse(self) -> Direction {
        match self {
            Direction::Up => Direction::Down,
            Direction::Down => Direction::Up,
            Direction::Left => Direction::Right,
            Direction::Right => Direction::Left,
        }
    }

    /// The direction an arrow key stands for.
    pub open spec fn spec_from_keycode(key: InputKey) -> Option<Direction> {
        match key {
            InputKey::Up => Some(Direction::Up),
            InputKey::Down => Some(Direction::Down),
            InputKey::Left => Some(Direction::Left),
            InputKey::Right => Some(Direction::Right),
            InputKey::Other => None,
        }
    }

    /// The opposite direction.
    pub fn inverse(&self) -> (r: Self)
        ensures
            r == self.spec_inverse(),
    {
        match *self {
            Direction::Up => Direction::Down,
            Direction::Down => Direction::Up,
            Direction::Left => Direction::Right,
            Direction::Right => Direction::Left,
        }
    }

    /// The direction an arrow key stands for; `None` for any other key.
    pub fn from_keycode(key: InputKey) -> (r: Option<Direction>)
        ensures
            r == Direction::spec_from_keycode(key),
    {
        match key {
            InputKey::Up => Some(Direction::Up),
            InputKey::Down => Some(Direction::Down),
            InputKey::Left => Some(Direction::Left),
            InputKey::Right => Some(Direction::Right),
            InputKey::Other => None,
        }
    }
}

/// Turning around twice gives back the direction one started with, and no
/// direction is its own opposite.
pub proof fn lemma_inverse_involutive(d: Direction)
    ensures
        d.spec_inverse().spec_inverse() == d,
        d.spec_inverse() != d,
{
}

} // verus!
