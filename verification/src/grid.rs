//! Cells of the grid and the four directions a segment can face.

use vstd::prelude::*;

verus! {

/// One cell of the grid. Both axes wrap around at the ends of `i8`, so every
/// cell has a neighbour in every direction.
#[derive(Clone, Copy, Debug, PartialEq, Eq, Structural)]
pub struct GridCell {
    pub x: i8,
    pub y: i8,
}

/// The way a segment faces. `Up` is towards larger `y`, `Right` towards
/// larger `x`.
#[derive(Clone, Copy, Debug, PartialEq, Eq, Structural)]
pub enum Direction {
    Up,
    Down,
    Left,
    Right,
}

/// The coordinate one step further along an axis, wrapping at the top.
pub open spec fn coord_after(v: i8) -> i8 {
    if v == i8::MAX {
        i8::MIN
    } else {
        (v + 1) as i8
    }
}

/// The coordinate one step back along an axis, wrapping at the bottom.
pub open spec fn coord_before(v: i8) -> i8 {
    if v == i8::MIN {
        i8::MAX
    } else {
        (v - 1) as i8
    }
}

fn step_forward(v: i8) -> (w: i8)
    ensures
        w == coord_after(v),
{
    if v == i8::MAX {
        i8::MIN
    } else {
        v + 1
    }
}

fn step_back(v: i8) -> (w: i8)
    ensures
        w == coord_before(v),
{
    if v == i8::MIN {
        i8::MAX
    } else {
        v - 1
    }
}

impl Direction {
    /// The direction that points the other way.
    pub open spec fn spec_opposite(self) -> Direction {
        match self {
            Direction::Up => Direction::Down,
            Direction::Down => Direction::Up,
            Direction::Left => Direction::Right,
            Direction::Right => Direction::Left,
        }
    }

    /// The direction that points the other way.
    pub fn opposite(&self) -> (d: Direction)
        ensures
            d == self.spec_opposite(),
    {
        match self {
            Direction::Up => Direction::Down,
            Direction::Down => Direction::Up,
            Direction::Left => Direction::Right,
            Direction::Right => Direction::Left,
        }
    }
}

impl Default for Direction {
    /// A segment that was never steered faces `Down`.
    fn default() -> (d: Direction)
        ensures
            d == Direction::Down,
    {
        Direction::Down
    }
}

impl Default for GridCell {
    /// The origin of the grid.
    fn default() -> (cell: GridCell)
        ensures
            cell == (GridCell { x: 0, y: 0 }),
    {
        GridCell { x: 0, y: 0 }
    }
}

impl GridCell {
    /// The neighbour of this cell one step along `direction`.
    pub open spec fn spec_in_front(self, direction: Direction) -> GridCell {
        match direction {
            Direction::Up => GridCell { x: self.x, y: coord_after(self.y) },
            Direction::Down => GridCell { x: self.x, y: coord_before(self.y) },
            Direction::Right => GridCell { x: coord_after(self.x), y: self.y },
            Direction::Left => GridCell { x: coord_before(self.x), y: self.y },
        }
    }

    /// The neighbour of this cell one step against `direction`.
    pub open spec fn spec_behind(self, direction: Direction) -> GridCell {
        match direction {
            Direction::Up => GridCell { x: self.x, y: coord_before(self.y) },
            Direction::Down => GridCell { x: self.x, y: coord_after(self.y) },
            Direction::Right => GridCell { x: coord_before(self.x), y: self.y },
            Direction::Left => GridCell { x: coord_after(self.x), y: self.y },
        }
    }

    /// The cell a segment here would enter by moving one step along
    /// `direction`.
    pub fn in_front(&self, direction: &Direction) -> (cell: GridCell)
        ensures
            cell == self.spec_in_front(*direction),
    {
        match direction {
            Direction::Up => GridCell { x: self.x, y: step_forward(self.y) },
            Direction::Down => GridCell { x: self.x, y: step_back(self.y) },
            Direction::Right => GridCell { x: step_forward(self.x), y: self.y },
            Direction::Left => GridCell { x: step_back(self.x), y: self.y },
        }
    }

    /// The cell a follower occupies when the segment here faces `direction`.
    pub fn behind(&self, direction: &Direction) -> (cell: GridCell)
        ensures
            cell == self.spec_behind(*direction),
    {
        match direction {
            Direction::Up => GridCell { x: self.x, y: step_back(self.y) },
            Direction::Down => GridCell { x: self.x, y: step_forward(self.y) },
            Direction::Right => GridCell { x: step_back(self.x), y: self.y },
            Direction::Left => GridCell { x: step_forward(self.x), y: self.y },
        }
    }
}

/// Stepping forward and then back along the same direction returns to the
/// starting cell, for every cell and every direction.
pub proof fn lemma_behind_undoes_in_front(p: GridCell, d: Direction)
    ensures
        p.spec_in_front(d).spec_behind(d) == p,
{
}

/// Stepping back and then forward along the same direction returns to the
/// starting cell, for every cell and every direction.
pub proof fn lemma_in_front_undoes_behind(p: GridCell, d: Direction)
    ensures
        p.spec_behind(d).spec_in_front(d) == p,
{
}

/// Moving against a direction is moving along its opposite, and taking the
/// opposite twice gives the direction back.
pub proof fn lemma_opposite(p: GridCell, d: Direction)
    ensures
        p.spec_behind(d) == p.spec_in_front(d.spec_opposite()),
        p.spec_in_front(d) == p.spec_behind(d.spec_opposite()),
        d.spec_opposite().spec_opposite() == d,
        d.spec_opposite() != d,
{
}

} // verus!
