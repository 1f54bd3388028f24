//! The mathematical model of a session: what a world is, which worlds are
//! well formed, and what each operation makes of a world.

use crate::grid::{Direction, Grid, Position};
use vstd::prelude::*;

verus! {

/// Why a session ended.
#[derive(Clone, Copy, Debug, PartialEq, Eq, Structural)]
pub enum EndReason {
    /// The head was sent into a cell that the body occupies.
    SelfCollision,
    /// The head was sent over the edge of the grid.
    WallBlocked,
    /// The snake fills the whole grid.
    Victory,
}

/// Whether a session is still being played.
#[derive(Clone, Copy, Debug, PartialEq, Eq, Structural)]
pub enum Status {
    Running,
    Ended(EndReason),
}

/// Which of the four steering keys are held down.
#[derive(Clone, Copy, Debug, PartialEq, Eq, Structural)]
pub struct KeysDown {
    pub up: bool,
    pub down: bool,
    pub left: bool,
    pub right: bool,
}

/// A world as a mathematical value. `body` runs from the cell just behind
/// the head to the tail; the head is not part of it.
pub struct WorldState {
    pub grid: Grid,
    pub head: Position,
    pub body: Seq<Position>,
    pub food: Option<Position>,
    /// The direction the next movement step will try.
    pub pending: Direction,
    /// The direction the last successful movement step went.
    pub heading: Direction,
    pub status: Status,
}

impl WorldState {
    /// The number of cells the snake covers, head included.
    pub open spec fn length(self) -> nat {
        self.body.len() + 1
    }

    /// The snake from head to tail.
    pub open spec fn snake(self) -> Seq<Position> {
        seq![self.head] + self.body
    }

    /// The snake covers `p`.
    pub open spec fn occupies(self, p: Position) -> bool {
        p == self.head || self.body.contains(p)
    }

    /// `p` is a cell of the grid that the snake does not cover.
    pub open spec fn is_free(self, p: Position) -> bool {
        self.grid.contains(p) && !self.occupies(p)
    }

    /// Some cell of the grid is not covered by the snake.
    pub open spec fn has_free_cell(self) -> bool {
        exists|p: Position| self.is_free(p)
    }

    /// The invariant of a world: the grid has cells; the snake lies inside
    /// the grid and covers no cell twice; food, if any, lies on a free cell;
    /// a session that is won has filled the grid, and one that is still
    /// running on a grid of more than one cell has not.
    pub open spec fn wf(self) -> bool {
        &&& self.grid.is_valid()
        &&& self.grid.contains(self.head)
        &&& forall|i: int| 0 <= i < self.body.len() ==> self.grid.contains(#[trigger] self.body[i])
        &&& self.body.no_duplicates()
        &&& !self.body.contains(self.head)
        &&& (self.food matches Some(f) ==> self.is_free(f))
        &&& (self.status == Status::Ended(EndReason::Victory) ==> self.length()
            == self.grid.cells())
        &&& (self.status == Status::Running && self.grid.cells() > 1 ==> self.length()
            < self.grid.cells())
    }

    /// The world at the start of a session on `grid`: the head on the
    /// starting cell, no body, no food, heading down, running.
    pub open spec fn initial(grid: Grid) -> WorldState {
        WorldState {
            grid,
            head: grid.start(),
            body: Seq::empty(),
            food: None,
            pending: Direction::Down,
            heading: Direction::Down,
            status: Status::Running,
        }
    }

    /// A request to travel in direction `d` is taken up while the session
    /// runs, unless `d` is the reverse of the direction last travelled.
    pub open spec fn accepts(self, d: Direction) -> bool {
        self.status == Status::Running && d != self.heading.opposite()
    }

    /// The world after a request to travel in direction `d`.
    pub open spec fn with_intent(self, d: Direction) -> WorldState {
        if self.accepts(d) {
            WorldState { pending: d, ..self }
        } else {
            self
        }
    }

    /// The direction that a set of held keys asks for: the first of down,
    /// up, right, left that is held and that the world accepts.
    pub open spec fn chosen(self, keys: KeysDown) -> Option<Direction> {
        if keys.down && self.accepts(Direction::Down) {
            Some(Direction::Down)
        } else if keys.up && self.accepts(Direction::Up) {
            Some(Direction::Up)
        } else if keys.right && self.accepts(Direction::Right) {
            Some(Direction::Right)
        } else if keys.left && self.accepts(Direction::Left) {
            Some(Direction::Left)
        } else {
            None
        }
    }

    /// The world after the held keys have been looked at.
    pub open spec fn with_keys(self, keys: KeysDown) -> WorldState {
        match self.chosen(keys) {
            Some(d) => WorldState { pending: d, ..self },
            None => self,
        }
    }

    /// The cell the head is sent to by the next movement step: its neighbour
    /// in the pending direction, or the head's own cell at the edge.
    pub open spec fn candidate(self) -> Position {
        self.grid.neighbor(self.head, self.pending)
    }

    /// The next movement step would leave the grid.
    pub open spec fn wall_blocked(self) -> bool {
        self.candidate() == self.head
    }

    /// The next movement step would run the head into the body.
    pub open spec fn bites_itself(self) -> bool {
        self.body.contains(self.candidate())
    }

    /// The session runs and the next movement step finds its cell open.
    pub open spec fn move_is_open(self) -> bool {
        self.status == Status::Running && !self.wall_blocked() && !self.bites_itself()
    }

    /// The next movement step would put the head on the food.
    pub open spec fn eats(self) -> bool {
        self.food == Some(self.candidate())
    }

    /// The body after a move into an open cell: the old head in front of the
    /// old body, without the tail cell unless the snake has eaten.
    pub open spec fn body_after_move(self) -> Seq<Position> {
        if self.eats() {
            self.snake()
        } else {
            self.snake().drop_last()
        }
    }

    /// The world after one movement step.
    pub open spec fn step(self) -> WorldState {
        if self.status != Status::Running {
            self
        } else if self.wall_blocked() {
            WorldState { status: Status::Ended(EndReason::WallBlocked), ..self }
        } else if self.bites_itself() {
            WorldState { status: Status::Ended(EndReason::SelfCollision), ..self }
        } else {
            let body = self.body_after_move();
            WorldState {
                head: self.candidate(),
                body,
                food: if self.eats() {
                    None
                } else {
                    self.food
                },
                heading: self.pending,
                status: if body.len() + 1 == self.grid.cells() {
                    Status::Ended(EndReason::Victory)
                } else {
                    Status::Running
                },
                ..self
            }
        }
    }

    /// What a movement step reports: the reason, if this step ended the
    /// session.
    pub open spec fn step_signal(self) -> Option<EndReason> {
        match (self.status, self.step().status) {
            (Status::Running, Status::Ended(reason)) => Some(reason),
            _ => None,
        }
    }

    /// Why the session ended, if it has.
    pub open spec fn end_reason(self) -> Option<EndReason> {
        match self.status {
            Status::Running => None,
            Status::Ended(reason) => Some(reason),
        }
    }

    /// The world after `n` movement steps.
    pub open spec fn steps(self, n: nat) -> WorldState
        decreases n,
    {
        if n == 0 {
            self
        } else {
            self.steps((n - 1) as nat).step()
        }
    }

    /// Food may be put on `p`: there is none yet and `p` is free.
    pub open spec fn takes_food(self, p: Position) -> bool {
        self.food is None && self.is_free(p)
    }

    /// The world after an attempt to put food on `p`.
    pub open spec fn with_food(self, p: Position) -> WorldState {
        if self.takes_food(p) {
            WorldState { food: Some(p), ..self }
        } else {
            self
        }
    }

    /// `after` is a world that a food step may leave behind: the same world
    /// where food is present already or no cell is free, and otherwise the
    /// same world with food on one of its free cells.
    pub open spec fn spawns_into(self, after: WorldState) -> bool {
        if self.food is Some || !self.has_free_cell() {
            after == self
        } else {
            &&& after.food matches Some(p)
            &&& self.is_free(p)
            &&& after == self.with_food(p)
        }
    }
}

} // verus!
