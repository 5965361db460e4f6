//! Grid geometry: cells, directions, and the wrap-around motion rules.

use vstd::prelude::*;

verus! {

/// A single addressable grid position, identified by column and row.
#[derive(Copy, Clone, PartialEq, Eq, Structural, Debug)]
pub struct Location {
    pub column: u16,
    pub row: u16,
}

impl Location {
    pub fn new(column: u16, row: u16) -> (r: Self)
        ensures
            r.column == column,
            r.row == row,
    {
        Location { column, row }
    }
}

/// The grid bounds, captured once at startup from the rendering surface's
/// size and never recomputed; they define the wrap-around edges.
#[derive(Copy, Clone, PartialEq, Eq, Structural, Debug)]
pub struct Screen {
    pub max_column: u16,
    pub max_row: u16,
}

impl Screen {
    pub fn new(max_column: u16, max_row: u16) -> (r: Self)
        ensures
            r.max_column == max_column,
            r.max_row == max_row,
    {
        Screen { max_column, max_row }
    }
}

/// A direction of motion; there is no diagonal movement.
#[derive(Copy, Clone, PartialEq, Eq, Structural, Debug)]
pub enum Direction {
    Up,
    Down,
    Left,
    Right,
}

/// The geometric opposite of a direction; turning into it is forbidden.
pub open spec fn opposite(d: Direction) -> Direction {
    match d {
        Direction::Up => Direction::Down,
        Direction::Down => Direction::Up,
        Direction::Left => Direction::Right,
        Direction::Right => Direction::Left,
    }
}

/// The cell one step from `head` in direction `d`, wrapping at the grid
/// edges: stepping below 0 lands on the max bound, stepping past the max
/// bound lands on 0.
pub open spec fn next_head_spec(head: Location, d: Direction, screen: Screen) -> Location {
    match d {
        Direction::Up => Location {
            column: head.column,
            row: if head.row > 0 { (head.row - 1) as u16 } else { screen.max_row },
        },
        Direction::Down => Location {
            column: head.column,
            row: if head.row < screen.max_row { (head.row + 1) as u16 } else { 0 },
        },
        Direction::Left => Location {
            column: if head.column > 0 { (head.column - 1) as u16 } else { screen.max_column },
            row: head.row,
        },
        Direction::Right => Location {
            column: if head.column < screen.max_column { (head.column + 1) as u16 } else { 0 },
            row: head.row,
        },
    }
}

/// Computes the next head cell, one step in direction `d` with wrap-around.
pub fn next_head(head: Location, d: Direction, screen: Screen) -> (r: Location)
    ensures
        r == next_head_spec(head, d, screen),
{
    match d {
        Direction::Up => Location {
            column: head.column,
            row: if head.row > 0 { head.row - 1 } else { screen.max_row },
        },
        Direction::Down => Location {
            column: head.column,
            row: if head.row < screen.max_row { head.row + 1 } else { 0 },
        },
        Direction::Left => Location {
            column: if head.column > 0 { head.column - 1 } else { screen.max_column },
            row: head.row,
        },
        Direction::Right => Location {
            column: if head.column < screen.max_column { head.column + 1 } else { 0 },
            row: head.row,
        },
    }
}

/// The cell placed one step behind `tail` when the snake grows while moving
/// in direction `d`; coordinates saturate at 0 instead of going negative.
/// The placement is intentionally approximate: it need not be adjacent to
/// the rest of the body.
pub open spec fn new_tail_spec(tail: Location, d: Direction) -> Location {
    match d {
        Direction::Up => Location { column: tail.column, row: (tail.row + 1) as u16 },
        Direction::Down => Location {
            column: tail.column,
            row: if tail.row > 0 { (tail.row - 1) as u16 } else { 0 },
        },
        Direction::Left => Location { column: (tail.column + 1) as u16, row: tail.row },
        Direction::Right => Location {
            column: if tail.column > 0 { (tail.column - 1) as u16 } else { 0 },
            row: tail.row,
        },
    }
}

/// Wrap-around law: moving Left from column 0 lands on the max column,
/// moving Right from the max column lands on column 0, and symmetrically
/// for rows when moving Up or Down.
pub proof fn lemma_wrap_around(head: Location, screen: Screen)
    ensures
        head.column == 0 ==> next_head_spec(head, Direction::Left, screen).column
            == screen.max_column,
        head.column == screen.max_column ==> next_head_spec(head, Direction::Right, screen).column
            == 0,
        head.row == 0 ==> next_head_spec(head, Direction::Up, screen).row == screen.max_row,
        head.row == screen.max_row ==> next_head_spec(head, Direction::Down, screen).row == 0,
{
}

} // verus!
