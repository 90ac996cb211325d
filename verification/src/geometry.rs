//! Grid coordinates, arena bounds and the four-way heading.

use vstd::prelude::*;

verus! {

/// Width of the reference arena, in grid cells.
pub const ARENA_WIDTH: u32 = 10;

/// Height of the reference arena, in grid cells.
pub const ARENA_HEIGHT: u32 = 10;

/// A cell of the arena grid.  Plain value type: two positions denote the
/// same cell exactly when both coordinates agree.
#[derive(Clone, Copy, Debug, PartialEq, Eq, Structural)]
pub struct Position {
    pub x: i32,
    pub y: i32,
}

/// One of the four headings the snake can take.
#[derive(Clone, Copy, Debug, PartialEq, Eq, Structural)]
pub enum Direction {
    Left,
    Up,
    Right,
    Down,
}

impl Direction {
    /// The heading pointing the other way.
    pub open spec fn opposite_spec(self) -> Direction {
        match self {
            Direction::Left => Direction::Right,
            Direction::Up => Direction::Down,
            Direction::Right => Direction::Left,
            Direction::Down => Direction::Up,
        }
    }

    /// Returns the heading pointing the other way.
    pub fn opposite(&self) -> (r: Direction)
        ensures
            r == self.opposite_spec(),
    {
        match self {
            Direction::Left => Direction::Right,
            Direction::Up => Direction::Down,
            Direction::Right => Direction::Left,
            Direction::Down => Direction::Up,
        }
    }
}

/// Reversal is an involution, and no heading is its own reverse.
pub proof fn lemma_opposite_involution(d: Direction)
    ensures
        d.opposite_spec().opposite_spec() == d,
        d.opposite_spec() != d,
{
}

/// Whether `p` lies inside an arena of the given extent.
pub open spec fn in_bounds_spec(p: Position, width: u32, height: u32) -> bool {
    0 <= p.x < width && 0 <= p.y < height
}

/// Returns whether `p` lies inside an arena of the given extent.
pub fn in_bounds(p: Position, width: u32, height: u32) -> (r: bool)
    ensures
        r == in_bounds_spec(p, width, height),
{
    p.x >= 0 && (p.x as u32) < width && p.y >= 0 && (p.y as u32) < height
}

/// The cell one unit step away from `p` along `d`: Left lowers x, Right
/// raises it, Up raises y, Down lowers it.
pub open spec fn step_spec(p: Position, d: Direction) -> Position {
    match d {
        Direction::Left => Position { x: (p.x - 1) as i32, y: p.y },
        Direction::Up => Position { x: p.x, y: (p.y + 1) as i32 },
        Direction::Right => Position { x: (p.x + 1) as i32, y: p.y },
        Direction::Down => Position { x: p.x, y: (p.y - 1) as i32 },
    }
}

/// Advances `p` one cell along `d`.
pub fn step(p: Position, d: Direction) -> (r: Position)
    requires
        i32::MIN < p.x < i32::MAX,
        i32::MIN < p.y < i32::MAX,
    ensures
        r == step_spec(p, d),
{
    match d {
        Direction::Left => Position { x: p.x - 1, y: p.y },
        Direction::Up => Position { x: p.x, y: p.y + 1 },
        Direction::Right => Position { x: p.x + 1, y: p.y },
        Direction::Down => Position { x: p.x, y: p.y - 1 },
    }
}

} // verus!
