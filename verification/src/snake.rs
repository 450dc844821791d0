//! The snake itself: an ordered body of grid cells with a heading.
//!
//! The body is kept head-first: index 0 is the head, the last index is the
//! tail. Moving pushes a new head cell at the front and drops the tail cell,
//! remembering it so that eating can grow the body back by one cell.

use vstd::prelude::*;

use crate::draw::{ColorRole, Rect};

verus! {

/// One of the four headings the snake can take.
#[derive(Copy, Clone, PartialEq, Eq, Structural, Debug)]
pub enum Direction {
    Up,
    Down,
    Right,
    Left,
}

/// The heading opposite to `d`: Up pairs with Down, Left pairs with Right.
pub open spec fn spec_opposite(d: Direction) -> Direction {
    match d {
        Direction::Up => Direction::Down,
        Direction::Down => Direction::Up,
        Direction::Left => Direction::Right,
        Direction::Right => Direction::Left,
    }
}

impl Direction {
    /// Returns the opposite direction.
    pub fn opposite(&self) -> (r: Direction)
        ensures
            r == spec_opposite(*self),
    {
        match *self {
            Direction::Up => Direction::Down,
            Direction::Down => Direction::Up,
            Direction::Left => Direction::Right,
            Direction::Right => Direction::Left,
        }
    }
}

/// The opposite pairing is an involution: taking the opposite twice gives
/// the starting heading back.
pub proof fn lemma_opposite_involutive(d: Direction)
    ensures
        spec_opposite(spec_opposite(d)) == d,
{
}

/// One cell of the grid: a pair of integer coordinates. A pure value with no
/// identity beyond its coordinates.
#[derive(Copy, Clone, PartialEq, Eq, Structural, Debug)]
pub struct Block {
    pub x: i32,
    pub y: i32,
}

/// The cell one step from `(x, y)` in direction `d`, on the unbounded grid.
pub open spec fn step_cell(x: int, y: int, d: Direction) -> (int, int) {
    match d {
        Direction::Up => (x, y - 1),
        Direction::Down => (x, y + 1),
        Direction::Left => (x - 1, y),
        Direction::Right => (x + 1, y),
    }
}

/// The heading actually used for a step: the supplied one if present,
/// otherwise the current one.
pub open spec fn dir_or(dir: Option<Direction>, cur: Direction) -> Direction {
    match dir {
        Some(d) => d,
        None => cur,
    }
}

/// True iff `(x, y)` equals some body cell other than the head (index 0).
/// The head cell itself is deliberately exempt: a prospective next head may
/// land where the present head is, and food may spawn under the head.
pub open spec fn hits_tail(body: Seq<Block>, x: int, y: int) -> bool {
    exists|i: int| 1 <= i < body.len() && body[i].x == x && body[i].y == y
}

/// The body described as one-by-one rectangles in the snake's color role,
/// head first.
pub open spec fn spec_body_rects(body: Seq<Block>) -> Seq<Rect> {
    body.map(
        |i: int, b: Block| Rect { color: ColorRole::Snake, x: b.x, y: b.y, width: 1, height: 1 },
    )
}

/// The player-controlled snake: its body cells, its heading, and the most
/// recently dropped tail cell (used to grow back after eating).
pub struct Snake {
    direction: Direction,
    body: Vec<Block>,
    tail: Option<Block>,
}

impl View for Snake {
    type V = Seq<Block>;

    /// The body cells, head first, tail last.
    closed spec fn view(&self) -> Seq<Block> {
        self.body@
    }
}

impl Snake {
    /// The snake's current heading.
    pub closed spec fn dir(&self) -> Direction {
        self.direction
    }

    /// The most recently dropped tail cell, or `None` before the first move.
    pub closed spec fn dropped(&self) -> Option<Block> {
        self.tail
    }

    /// The head cell exists and can take one step in any direction without
    /// leaving the machine's integer range.
    pub open spec fn head_in_step_range(&self) -> bool {
        &&& self@.len() >= 1
        &&& i32::MIN < self@[0].x < i32::MAX
        &&& i32::MIN < self@[0].y < i32::MAX
    }

    /// A fresh three-cell snake lying on the row `y`, tail at `(x, y)` and
    /// head at `(x + 2, y)`, heading right.
    pub fn new(x: i32, y: i32) -> (r: Snake)
        requires
            x <= i32::MAX - 2,
        ensures
            r@.len() == 3,
            r@[0].x == x + 2 && r@[0].y == y,
            r@[1].x == x + 1 && r@[1].y == y,
            r@[2].x == x && r@[2].y == y,
            r.dir() == Direction::Right,
            r.dropped() is None,
    {
        let mut body: Vec<Block> = Vec::new();
        body.push(Block { x: x + 2, y });
        body.push(Block { x: x + 1, y });
        body.push(Block { x, y });

        Snake { direction: Direction::Right, body, tail: None }
    }

    /// The current position of the snake's head.
    pub fn head_position(&self) -> (r: (i32, i32))
        requires
            self@.len() >= 1,
        ensures
            r.0 == self@[0].x,
            r.1 == self@[0].y,
    {
        let head_block = &self.body[0];
        (head_block.x, head_block.y)
    }

    /// The snake's current heading.
    pub fn head_direction(&self) -> (r: Direction)
        ensures
            r == self.dir(),
    {
        self.direction
    }

    /// The cell the head would occupy after one step in `dir` (or in the
    /// current heading if `dir` is absent), without moving. Does not check
    /// bounds or collision.
    pub fn next_head(&self, dir: Option<Direction>) -> (r: (i32, i32))
        requires
            self.head_in_step_range(),
        ensures
            (r.0 as int, r.1 as int) == step_cell(
                self@[0].x as int,
                self@[0].y as int,
                dir_or(dir, self.dir()),
            ),
    {
        let (head_x, head_y) = self.head_position();

        let moving_dir = match dir {
            Some(d) => d,
            None => self.direction,
        };

        match moving_dir {
            Direction::Up => (head_x, head_y - 1),
            Direction::Down => (head_x, head_y + 1),
            Direction::Left => (head_x - 1, head_y),
            Direction::Right => (head_x + 1, head_y),
        }
    }

    /// Advances one step: a supplied direction replaces the heading (no
    /// reversal check here, that policy belongs to the caller), the new head
    /// cell is pushed at the front, the tail cell is dropped and remembered.
    /// The body length is preserved.
    pub fn move_forward(&mut self, dir: Option<Direction>)
        requires
            old(self).head_in_step_range(),
        ensures
            final(self).dir() == dir_or(dir, old(self).dir()),
            final(self)@.len() == old(self)@.len(),
            (final(self)@[0].x as int, final(self)@[0].y as int) == step_cell(
                old(self)@[0].x as int,
                old(self)@[0].y as int,
                dir_or(dir, old(self).dir()),
            ),
            forall|i: int| 1 <= i < final(self)@.len() ==> final(self)@[i] == old(self)@[i - 1],
            final(self).dropped() == Some(old(self)@.last()),
    {
        if let Some(d) = dir {
            self.direction = d;
        }

        let (last_x, last_y) = self.head_position();
        let new_block = match self.direction {
            Direction::Up => Block { x: last_x, y: last_y - 1 },
            Direction::Down => Block { x: last_x, y: last_y + 1 },
            Direction::Left => Block { x: last_x - 1, y: last_y },
            Direction::Right => Block { x: last_x + 1, y: last_y },
        };

        self.body.insert(0, new_block);
        let removed_block = self.body.pop().unwrap();
        self.tail = Some(removed_block);
    }

    /// Grows the body by one cell: the most recently dropped tail cell is
    /// pushed back onto the tail end. Meaningful only after at least one
    /// move has dropped a cell; before that there is nothing to restore,
    /// which the precondition rules out.
    pub fn restore_tail(&mut self)
        requires
            old(self).dropped() is Some,
        ensures
            final(self).dir() == old(self).dir(),
            final(self).dropped() == old(self).dropped(),
            final(self)@.len() == old(self)@.len() + 1,
            (old(self).dropped() matches Some(b) && final(self)@ == old(self)@.push(b)),
    {
        let blk = self.tail.unwrap();
        self.body.push(blk);
    }

    /// Describes the body for a renderer: one rectangle per body cell, in
    /// body order, head first.
    pub fn draw(&self) -> (r: Vec<Rect>)
        ensures
            r@ =~= spec_body_rects(self@),
    {
        let mut r: Vec<Rect> = Vec::new();
        let mut i: usize = 0;
        while i < self.body.len()
            invariant
                0 <= i <= self.body@.len(),
                r@.len() == i,
                forall|j: int| 0 <= j < i ==> r@[j] == spec_body_rects(self.body@)[j],
            decreases self.body@.len() - i,
        {
            let b = self.body[i];
            r.push(Rect { color: ColorRole::Snake, x: b.x, y: b.y, width: 1, height: 1 });
            i += 1;
        }
        r
    }

    /// True iff `(x, y)` coincides with a body cell other than the head.
    /// Used both for self-collision of a prospective next head (where the
    /// present head cell is irrelevant) and for food placement (where food
    /// may, by policy, spawn under the head cell).
    pub fn overlap_tail(&self, x: i32, y: i32) -> (r: bool)
        requires
            self@.len() >= 1,
        ensures
            r == hits_tail(self@, x as int, y as int),
    {
        let mut i: usize = 1;
        while i < self.body.len()
            invariant
                1 <= i <= self.body@.len(),
                forall|j: int| 1 <= j < i ==> !(self.body@[j].x == x && self.body@[j].y == y),
            decreases self.body@.len() - i,
        {
            let b = self.body[i];
            if b.x == x && b.y == y {
                proof {
                    assert(hits_tail(self@, x as int, y as int));
                }
                return true;
            }
            i += 1;
        }
        false
    }
}

} // verus!
