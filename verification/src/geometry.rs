//! Value types for the grid: a 2D unsigned coordinate and a 4-way heading.

use vstd::prelude::*;

verus! {

/// A grid coordinate. Coordinates are unsigned: there are no negative
/// cells, and movement toward an edge saturates instead of wrapping.
#[derive(Debug, PartialEq, Eq, Structural, Clone, Copy)]
pub struct Point {
    pub x: u32,
    pub y: u32,
}

/// One of the four headings a snake can take. There is no diagonal and no
/// "none" heading.
#[derive(Debug, PartialEq, Eq, Structural, Clone, Copy)]
pub enum Direction {
    Up,
    Down,
    Left,
    Right,
}

/// The cell one step away from `p` in direction `d`, with saturating
/// arithmetic: a coordinate clamps at 0 on the low side and at `u32::MAX`
/// on the high side rather than wrapping.
pub open spec fn step(p: Point, d: Direction) -> Point {
    match d {
        Direction::Up => Point { x: p.x, y: p.y.saturating_sub(1) },
        Direction::Down => Point { x: p.x, y: p.y.saturating_add(1) },
        Direction::Left => Point { x: p.x.saturating_sub(1), y: p.y },
        Direction::Right => Point { x: p.x.saturating_add(1), y: p.y },
    }
}

/// True iff stepping from `p` in direction `d` moves by exactly one cell,
/// i.e. the saturating arithmetic does not clamp.
pub open spec fn step_unclamped(p: Point, d: Direction) -> bool {
    match d {
        Direction::Up => p.y > 0,
        Direction::Down => p.y < u32::MAX,
        Direction::Left => p.x > 0,
        Direction::Right => p.x < u32::MAX,
    }
}

/// True iff `a` and `b` are distinct cells at Manhattan distance 1.
pub open spec fn adjacent(a: Point, b: Point) -> bool {
    ||| (a.x == b.x && (a.y + 1 == b.y || b.y + 1 == a.y))
    ||| (a.y == b.y && (a.x + 1 == b.x || b.x + 1 == a.x))
}

/// An unclamped step always lands on an adjacent cell.
pub proof fn lemma_step_unclamped_adjacent(p: Point, d: Direction)
    requires
        step_unclamped(p, d),
    ensures
        adjacent(p, step(p, d)),
{
}

} // verus!
