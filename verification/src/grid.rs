//! The board: directions, cells and the grid's dimensions.

use vstd::prelude::*;

verus! {

/// The row the snake's head starts in, where the grid is tall enough.
pub const START_ROW: u16 = 5;

/// The column the snake's head starts in, where the grid is wide enough.
pub const START_COL: u16 = 5;

/// One of the four ways the snake can travel. Rows grow downwards and
/// columns grow to the right.
#[derive(Clone, Copy, Debug, PartialEq, Eq, Structural)]
pub enum Direction {
    Up,
    Down,
    Left,
    Right,
}

impl Direction {
    /// The direction that points the other way.
    pub open spec fn spec_opposite(self) -> Direction {
        match self {
            Direction::Up => Direction::Down,
            Direction::Down => Direction::Up,
            Direction::Left => Direction::Right,
            Direction::Right => Direction::Left,
        }
    }

    /// The direction that points the other way.
    #[verifier::when_used_as_spec(spec_opposite)]
    pub fn opposite(self) -> (reverse: Direction)
        ensures
            reverse == self.spec_opposite(),
    {
        match self {
            Direction::Up => Direction::Down,
            Direction::Down => Direction::Up,
            Direction::Left => Direction::Right,
            Direction::Right => Direction::Left,
        }
    }
}

/// A cell of the board, by row and column.
#[derive(Clone, Copy, Debug, PartialEq, Eq, Structural)]
pub struct Position {
    pub row: u16,
    pub col: u16,
}

/// The dimensions of the board. A grid is usable when it has at least one
/// row and one column; its cells are the positions `(row, col)` with
/// `row < rows` and `col < cols`.
#[derive(Clone, Copy, Debug, PartialEq, Eq, Structural)]
pub struct Grid {
    pub rows: u16,
    pub cols: u16,
}

impl Grid {
    /// Both dimensions are positive.
    pub open spec fn spec_is_valid(&self) -> bool {
        self.rows >= 1 && self.cols >= 1
    }

    /// Whether both dimensions are positive.
    #[verifier::when_used_as_spec(spec_is_valid)]
    pub fn is_valid(&self) -> (valid: bool)
        ensures
            valid == self.spec_is_valid(),
    {
        self.rows >= 1 && self.cols >= 1
    }

    /// The number of cells, `rows * cols`.
    pub open spec fn cells(self) -> nat {
        (self.rows * self.cols) as nat
    }

    /// The number of cells, `rows * cols`.
    pub fn cell_count(&self) -> (count: u32)
        ensures
            count == self.cells(),
    {
        assert(self.rows * self.cols <= 0xffff * 0xffff) by (nonlinear_arith)
            requires
                self.rows <= 0xffff,
                self.cols <= 0xffff,
        ;
        (self.rows as u32) * (self.cols as u32)
    }

    /// `p` is a cell of this grid.
    pub open spec fn spec_contains(&self, p: Position) -> bool {
        p.row < self.rows && p.col < self.cols
    }

    /// Whether `p` is a cell of this grid.
    #[verifier::when_used_as_spec(spec_contains)]
    pub fn contains(&self, p: Position) -> (inside: bool)
        ensures
            inside == self.spec_contains(p),
    {
        p.row < self.rows && p.col < self.cols
    }

    /// The cell one step from `p` in direction `d`, or `p` itself where that
    /// step would leave the grid.
    pub open spec fn spec_neighbor(&self, p: Position, d: Direction) -> Position {
        match d {
            Direction::Up => if p.row > 0 {
                Position { row: (p.row - 1) as u16, col: p.col }
            } else {
                p
            },
            Direction::Down => if p.row + 1 < self.rows {
                Position { row: (p.row + 1) as u16, col: p.col }
            } else {
                p
            },
            Direction::Left => if p.col > 0 {
                Position { row: p.row, col: (p.col - 1) as u16 }
            } else {
                p
            },
            Direction::Right => if p.col + 1 < self.cols {
                Position { row: p.row, col: (p.col + 1) as u16 }
            } else {
                p
            },
        }
    }

    /// The cell one step from `p` in direction `d`, or `p` itself where that
    /// step would leave the grid.
    #[verifier::when_used_as_spec(spec_neighbor)]
    pub fn neighbor(&self, p: Position, d: Direction) -> (next: Position)
        ensures
            next == self.spec_neighbor(p, d),
    {
        match d {
            Direction::Up => if p.row > 0 {
                Position { row: p.row - 1, col: p.col }
            } else {
                p
            },
            Direction::Down => if self.rows > 0 && p.row < self.rows - 1 {
                Position { row: p.row + 1, col: p.col }
            } else {
                p
            },
            Direction::Left => if p.col > 0 {
                Position { row: p.row, col: p.col - 1 }
            } else {
                p
            },
            Direction::Right => if self.cols > 0 && p.col < self.cols - 1 {
                Position { row: p.row, col: p.col + 1 }
            } else {
                p
            },
        }
    }

    /// The cell where the snake's head starts: `(START_ROW, START_COL)`,
    /// pulled back to the last row or column of a grid that is smaller.
    pub open spec fn spec_start(&self) -> Position {
        Position {
            row: if START_ROW < self.rows { START_ROW } else { (self.rows - 1) as u16 },
            col: if START_COL < self.cols { START_COL } else { (self.cols - 1) as u16 },
        }
    }

    /// The cell where the snake's head starts.
    #[verifier::when_used_as_spec(spec_start)]
    pub fn start(&self) -> (cell: Position)
        requires
            self.is_valid(),
        ensures
            cell == self.spec_start(),
            self.contains(cell),
    {
        Position {
            row: if START_ROW < self.rows { START_ROW } else { self.rows - 1 },
            col: if START_COL < self.cols { START_COL } else { self.cols - 1 },
        }
    }

    /// The cell that a pair of unconstrained numbers selects: each number is
    /// reduced modulo the matching dimension.
    pub open spec fn spec_wrap(&self, row_draw: u16, col_draw: u16) -> Position {
        Position { row: (row_draw % self.rows) as u16, col: (col_draw % self.cols) as u16 }
    }

    /// The cell that a pair of unconstrained numbers selects.
    #[verifier::when_used_as_spec(spec_wrap)]
    pub fn wrap(&self, row_draw: u16, col_draw: u16) -> (cell: Position)
        requires
            self.is_valid(),
        ensures
            cell == self.spec_wrap(row_draw, col_draw),
            self.contains(cell),
    {
        Position { row: row_draw % self.rows, col: col_draw % self.cols }
    }
}

} // verus!
