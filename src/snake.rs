//! The snake: its body, one movement step, growth, and what it ran into.

use crate::grid::{moved, Direction, GridPosition};
use vstd::prelude::*;

verus! {

/// One cell of the snake's body.
#[derive(Clone, Copy, PartialEq, Eq, Debug, Structural)]
pub struct Segment {
    pub pos: GridPosition,
}

impl Segment {
    pub fn new(pos: GridPosition) -> (r: Self)
        ensures
            r.pos == pos,
    {
        Segment { pos }
    }
}

/// The piece of food on the board.
#[derive(Clone, Copy, PartialEq, Eq, Debug, Structural)]
pub struct Food {
    pub pos: GridPosition,
}

impl Food {
    pub fn new(pos: GridPosition) -> (r: Self)
        ensures
            r.pos == pos,
    {
        Food { pos }
    }
}

/// What the head ran into during an update.
#[derive(Clone, Copy, PartialEq, Eq, Debug, Structural)]
pub enum Ate {
    Itself,
    Food,
}

/// The snake: a head, and a body whose first segment is the one next to the head.
pub struct Snake {
    head: Segment,
    dir: Direction,
    body: Vec<Segment>,
    ate: Option<Ate>,
    last_update_dir: Direction,
}

/// The snake as positions: what it is, with the segments unwrapped.
pub struct SnakeView {
    pub head: GridPosition,
    pub body: Seq<GridPosition>,
    /// The direction the next update will move in.
    pub dir: Direction,
    /// What the most recent update ran into.
    pub ate: Option<Ate>,
    /// The direction the most recent update moved in.
    pub last_update_dir: Direction,
}

impl View for Snake {
    type V = SnakeView;

    closed spec fn view(&self) -> SnakeView {
        SnakeView {
            head: self.head.pos,
            body: self.body@.map_values(|s: Segment| s.pos),
            dir: self.dir,
            ate: self.ate,
            last_update_dir: self.last_update_dir,
        }
    }
}

impl SnakeView {
    /// One update: the head moves one cell, the old head becomes the first body
    /// segment, the head is checked against the body and then against the food,
    /// and the tail is dropped only when nothing was eaten.
    pub open spec fn step(self, food: GridPosition) -> SnakeView {
        let new_head = moved(self.head, self.dir);
        let pushed = seq![self.head] + self.body;
        let ate = if pushed.contains(new_head) {
            Some(Ate::Itself)
        } else if new_head == food {
            Some(Ate::Food)
        } else {
            None
        };
        SnakeView {
            head: new_head,
            body: if ate is None {
                pushed.drop_last()
            } else {
                pushed
            },
            dir: self.dir,
            ate,
            last_update_dir: self.dir,
        }
    }

    /// A requested direction is taken unless it is the reverse of the direction
    /// the most recent update moved in.
    pub open spec fn turn(self, d: Direction) -> SnakeView {
        if d.spec_inverse() != self.last_update_dir {
            SnakeView { dir: d, ..self }
        } else {
            self
        }
    }

    /// The snake after one update for each food position in turn.
    pub open spec fn run(self, foods: Seq<GridPosition>) -> SnakeView
        decreases foods.len(),
    {
        if foods.len() == 0 {
            self
        } else {
            self.run(foods.drop_last()).step(foods.last())
        }
    }

    /// The snake after each requested direction in turn, with no update between.
    pub open spec fn turns(self, ds: Seq<Direction>) -> SnakeView
        decreases ds.len(),
    {
        if ds.len() == 0 {
            self
        } else {
            self.turns(ds.drop_last()).turn(ds.last())
        }
    }
}

impl Snake {
    /// A snake with its head at `pos`, one body segment to its left, moving right.
    pub fn new(pos: GridPosition) -> (r: Self)
        requires
            pos.x > i16::MIN,
        ensures
            r@ == (SnakeView {
                head: pos,
                body: seq![GridPosition { x: (pos.x - 1) as i16, y: pos.y }],
                dir: Direction::Right,
                ate: None,
                last_update_dir: Direction::Right,
            }),
    {
        let mut body: Vec<Segment> = Vec::new();
        body.push(Segment::new(GridPosition::new(pos.x - 1, pos.y)));
        let r = Snake {
            head: Segment::new(pos),
            dir: Direction::Right,
            last_update_dir: Direction::Right,
            body,
            ate: None,
        };
        assert(r@.body =~= seq![GridPosition { x: (pos.x - 1) as i16, y: pos.y }]);
        r
    }

    /// Whether the head is on the food.
    pub fn eats(&self, food: &Food) -> (r: bool)
        ensures
            r == (self@.head == food.pos),
    {
        self.head.pos == food.pos
    }

    /// Whether the head is on one of the body's segments.
    pub fn eats_self(&self) -> (r: bool)
        ensures
            r == self@.body.contains(self@.head),
    {
        let n = self.body.len();
        let mut i: usize = 0;
        while i < n
            invariant
                n == self.body@.len(),
                0 <= i <= n,
                forall|j: int| 0 <= j < i ==> self.body@[j].pos != self.head.pos,
            decreases n - i,
        {
            if self.head.pos == self.body[i].pos {
                assert(self@.body[i as int] == self@.head);
                return true;
            }
            i = i + 1;
        }
        assert(!self@.body.contains(self@.head)) by {
            if self@.body.contains(self@.head) {
                let j = choose|j: int| 0 <= j < self@.body.len() && self@.body[j] == self@.head;
                assert(self.body@[j].pos == self.head.pos);
            }
        }
        false
    }

    /// Moves the snake one cell in its direction and records what it ran into;
    /// the body grows by one segment exactly when something was eaten.
    pub fn update(&mut self, food: &Food)
        ensures
            final(self)@ == old(self)@.step(food.pos),
            final(self)@.ate is None ==> final(self)@.body.len() == old(self)@.body.len(),
            final(self)@.ate is Some ==> final(self)@.body.len() == old(self)@.body.len() + 1,
    {
        let ghost pre = self@;
        let new_head_pos = GridPosition::new_from_move(self.head.pos, self.dir);
        let new_head = Segment::new(new_head_pos);
        self.body.insert(0, self.head);
        self.head = new_head;
        assert(self@.body =~= seq![pre.head] + pre.body);
        if self.eats_self() {
            self.ate = Some(Ate::Itself);
        } else if self.eats(food) {
            self.ate = Some(Ate::Food);
        } else {
            self.ate = None;
        }
        if self.ate.is_none() {
            let ghost before_pop = self@.body;
            self.body.pop();
            assert(self@.body =~= before_pop.drop_last());
        }
        self.last_update_dir = self.dir;
    }

    /// Takes `d` as the direction of the next update unless it reverses the
    /// direction of the most recent update; several requests may come between
    /// two updates, and each is checked against that same direction.
    pub fn turn(&mut self, d: Direction)
        ensures
            final(self)@ == old(self)@.turn(d),
    {
        if d.inverse() != self.last_update_dir {
            self.dir = d;
        }
    }

    pub fn head_pos(&self) -> (r: GridPosition)
        ensures
            r == self@.head,
    {
        self.head.pos
    }

    /// The body's positions, from the segment next to the head to the tail.
    pub fn body_positions(&self) -> (r: Vec<GridPosition>)
        ensures
            r@ == self@.body,
    {
        let mut r: Vec<GridPosition> = Vec::new();
        let n = self.body.len();
        let mut i: usize = 0;
        while i < n
            invariant
                n == self.body@.len(),
                0 <= i <= n,
                r@ =~= self@.body.take(i as int),
            decreases n - i,
        {
            r.push(self.body[i].pos);
            i = i + 1;
            assert(r@ =~= self@.body.take(i as int));
        }
        assert(self@.body.take(n as int) =~= self@.body);
        r
    }

    /// The number of body segments; the snake's length is one more, for the head.
    pub fn body_len(&self) -> (r: usize)
        ensures
            r == self@.body.len(),
    {
        self.body.len()
    }

    pub fn dir(&self) -> (r: Direction)
        ensures
            r == self@.dir,
    {
        self.dir
    }

    pub fn last_update_dir(&self) -> (r: Direction)
        ensures
            r == self@.last_update_dir,
    {
        self.last_update_dir
    }

    pub fn ate(&self) -> (r: Option<Ate>)
        ensures
            r == self@.ate,
    {
        self.ate
    }
}

/// Over any number of updates in which the head runs into nothing, the body
/// keeps the length it started with.
pub proof fn lemma_length_steady_without_eating(s: SnakeView, foods: Seq<GridPosition>)
    requires
        forall|k: int| 0 <= k < foods.len() ==> (#[trigger] s.run(foods.take(k))).step(foods[k]).ate is None,
    ensures
        s.run(foods).body.len() == s.body.len(),
    decreases foods.len(),
{
    if foods.len() > 0 {
        let prefix = foods.drop_last();
        assert forall|k: int| 0 <= k < prefix.len() implies (#[trigger] s.run(prefix.take(k))).step(
            prefix[k],
        ).ate is None by {
            assert(prefix.take(k) =~= foods.take(k));
            assert(s.run(foods.take(k)).step(foods[k]).ate is None);
        }
        lemma_length_steady_without_eating(s, prefix);
        let k = foods.len() - 1;
        assert(foods.take(k) =~= prefix);
        assert(s.run(foods.take(k)).step(foods[k]).ate is None);
    }
}

/// An update in which the snake eats grows the body by exactly one segment;
/// one in which it eats nothing keeps its length.
pub proof fn lemma_growth_by_one(s: SnakeView, food: GridPosition)
    ensures
        s.step(food).ate is Some ==> s.step(food).body.len() == s.body.len() + 1,
        s.step(food).ate is None ==> s.step(food).body.len() == s.body.len(),
{
}

/// Right after an update, no sequence of requested directions makes the
/// snake's next move the reverse of the one it just made; a direction at a
/// right angle to it is always taken.
pub proof fn lemma_no_reversal(s: SnakeView, ds: Seq<Direction>)
    requires
        s.dir == s.last_update_dir,
    ensures
        s.turns(ds).dir != s.last_update_dir.spec_inverse(),
        s.turns(ds).last_update_dir == s.last_update_dir,
        forall|d: Direction|
            d != s.last_update_dir && d != s.last_update_dir.spec_inverse() ==> (#[trigger] s.turns(
                ds,
            ).turn(d)).dir == d,
    decreases ds.len(),
{
    if ds.len() > 0 {
        lemma_no_reversal(s, ds.drop_last());
    }
}

} // verus!
