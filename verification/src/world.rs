//! The snake world: grid, head, body, food, directions and status, with one
//! operation per kind of tick.

use crate::grid::{Direction, Grid, Position};
use crate::model::{EndReason, KeysDown, Status, WorldState};
use crate::rng::draw_u16;
use crate::theorems::lemma_fresh_world;
use crate::wellformed::{lemma_snake_fits, lemma_step_keeps_wf, lemma_without_body};
use rand::rngs::StdRng;
use std::collections::VecDeque;
use vstd::prelude::*;

verus! {

/// How many cells a food step draws at random before it takes the first
/// free cell instead.
pub const DRAW_LIMIT: u32 = 1024;

/// `p` comes no later than `q` when the grid is read row by row.
pub open spec fn no_later(p: Position, q: Position) -> bool {
    p.row < q.row || (p.row == q.row && p.col <= q.col)
}

/// A snake world. It is made by [`World::new`] and changed only by the
/// operations below; at all times its view satisfies [`WorldState::wf`].
pub struct World {
    grid: Grid,
    head: Position,
    body: VecDeque<Position>,
    food: Option<Position>,
    pending: Direction,
    heading: Direction,
    status: Status,
}

impl View for World {
    type V = WorldState;

    closed spec fn view(&self) -> WorldState {
        WorldState {
            grid: self.grid,
            head: self.head,
            body: self.body@,
            food: self.food,
            pending: self.pending,
            heading: self.heading,
            status: self.status,
        }
    }
}

impl World {
    /// The invariant of the type: the world's view is well formed.
    #[verifier::type_invariant]
    pub open spec fn wf(&self) -> bool {
        self@.wf()
    }

    /// The world at the start of a session on `grid`.
    fn fresh(grid: Grid) -> (world: World)
        requires
            grid.is_valid(),
        ensures
            world@ == WorldState::initial(grid),
            world@.wf(),
    {
        let body: VecDeque<Position> = VecDeque::new();
        proof {
            lemma_fresh_world(grid);
            assert(body@ =~= WorldState::initial(grid).body);
        }
        World {
            grid,
            head: grid.start(),
            body,
            food: None,
            pending: Direction::Down,
            heading: Direction::Down,
            status: Status::Running,
        }
    }

    /// A fresh world on `grid`, or `None` where the grid has no cells.
    pub fn new(grid: Grid) -> (made: Option<World>)
        ensures
            made is Some <==> grid.is_valid(),
            made matches Some(world) ==> world@ == WorldState::initial(grid) && world@.wf(),
    {
        if grid.is_valid() {
            Some(World::fresh(grid))
        } else {
            None
        }
    }

    /// Starts the session over on the same grid: the head back on the
    /// starting cell, no body, no food, heading down, running.
    pub fn restart(&mut self)
        ensures
            final(self)@ == WorldState::initial(old(self)@.grid),
            final(self)@.wf(),
    {
        proof {
            use_type_invariant(&*self);
        }
        *self = World::fresh(self.grid);
    }

    /// Whether a request to travel in direction `d` would be taken up: the
    /// session runs and `d` is not the reverse of the direction last
    /// travelled.
    pub fn accepts(&self, d: Direction) -> (taken: bool)
        ensures
            taken == self@.accepts(d),
    {
        self.status == Status::Running && d != self.heading.opposite()
    }

    /// Asks for the next movement step to go in direction `d`. The request
    /// is dropped once the session has ended, and where `d` is the reverse
    /// of the direction last travelled, whatever was asked for in between.
    /// Returns whether the request was taken up.
    pub fn set_direction_intent(&mut self, d: Direction) -> (taken: bool)
        ensures
            final(self)@ == old(self)@.with_intent(d),
            taken == old(self)@.accepts(d),
            final(self)@.wf(),
    {
        proof {
            use_type_invariant(&*self);
        }
        if self.accepts(d) {
            self.pending = d;
            true
        } else {
            false
        }
    }

    /// Looks at the steering keys that are held and asks for the first
    /// direction among down, up, right, left whose key is held and whose
    /// request the world takes up. Returns that direction, if any.
    pub fn handle_input(&mut self, keys: KeysDown) -> (chosen: Option<Direction>)
        ensures
            final(self)@ == old(self)@.with_keys(keys),
            chosen == old(self)@.chosen(keys),
            final(self)@.wf(),
    {
        proof {
            use_type_invariant(&*self);
        }
        if keys.down && self.set_direction_intent(Direction::Down) {
            Some(Direction::Down)
        } else if keys.up && self.set_direction_intent(Direction::Up) {
            Some(Direction::Up)
        } else if keys.right && self.set_direction_intent(Direction::Right) {
            Some(Direction::Right)
        } else if keys.left && self.set_direction_intent(Direction::Left) {
            Some(Direction::Left)
        } else {
            None
        }
    }

    /// The grid the session is played on.
    pub fn grid(&self) -> (grid: Grid)
        ensures
            grid == self@.grid,
    {
        self.grid
    }

    /// The cell of the snake's head.
    pub fn head(&self) -> (cell: Position)
        ensures
            cell == self@.head,
    {
        self.head
    }

    /// The cells of the snake's body, from the one just behind the head to
    /// the tail.
    pub fn body(&self) -> (cells: Vec<Position>)
        ensures
            cells@ == self@.body,
    {
        let mut cells: Vec<Position> = Vec::new();
        let mut i: usize = 0;
        while i < self.body.len()
            invariant
                i <= self.body.len(),
                cells@ == self.body@.subrange(0, i as int),
            decreases self.body.len() - i,
        {
            cells.push(self.body[i]);
            assert(cells@ =~= self.body@.subrange(0, i + 1));
            i += 1;
        }
        assert(cells@ =~= self.body@);
        cells
    }

    /// The number of cells the snake covers, head included.
    pub fn length(&self) -> (count: usize)
        ensures
            count == self@.length(),
    {
        let cells: u32 = self.grid.cell_count();
        proof {
            use_type_invariant(self);
            lemma_snake_fits(self@);
        }
        self.body.len() + 1
    }

    /// The cell the food lies on, if there is food.
    pub fn food(&self) -> (cell: Option<Position>)
        ensures
            cell == self@.food,
    {
        self.food
    }

    /// The direction the next movement step will try.
    pub fn pending(&self) -> (d: Direction)
        ensures
            d == self@.pending,
    {
        self.pending
    }

    /// The direction the last successful movement step went: the way the
    /// snake faces.
    pub fn heading(&self) -> (d: Direction)
        ensures
            d == self@.heading,
    {
        self.heading
    }

    /// Whether the session is still being played.
    pub fn is_running(&self) -> (running: bool)
        ensures
            running == (self@.status == Status::Running),
    {
        self.status == Status::Running
    }

    /// Whether the session is still being played and, if not, why it ended.
    pub fn status(&self) -> (status: Status)
        ensures
            status == self@.status,
    {
        self.status
    }

    /// Why the session ended, if it has.
    pub fn end_reason(&self) -> (reason: Option<EndReason>)
        ensures
            reason == self@.end_reason(),
    {
        match self.status {
            Status::Running => None,
            Status::Ended(reason) => Some(reason),
        }
    }

    /// Whether the snake's body, the head left aside, covers `p`.
    fn body_covers(&self, p: Position) -> (found: bool)
        ensures
            found == self@.body.contains(p),
    {
        let mut i: usize = 0;
        while i < self.body.len()
            invariant
                i <= self.body.len(),
                forall|j: int| 0 <= j < i ==> self.body@[j] != p,
            decreases self.body.len() - i,
        {
            if self.body[i] == p {
                return true;
            }
            i += 1;
        }
        false
    }

    /// One movement tick. A world that has ended stays as it is. Otherwise
    /// the head is sent one cell in the pending direction: over the edge or
    /// into the body ends the session and moves nothing; into an open cell
    /// the snake follows, grows by one if food was there, and wins once it
    /// fills the grid. Returns the reason if this step ended the session.
    pub fn step(&mut self) -> (ended: Option<EndReason>)
        ensures
            final(self)@ == old(self)@.step(),
            final(self)@.wf(),
            ended == old(self)@.step_signal(),
    {
        proof {
            use_type_invariant(&*self);
            lemma_step_keeps_wf(self@);
            lemma_snake_fits(self@.step());
        }
        if self.status != Status::Running {
            return None;
        }
        let candidate = self.grid.neighbor(self.head, self.pending);
        if candidate == self.head {
            self.status = Status::Ended(EndReason::WallBlocked);
            return Some(EndReason::WallBlocked);
        }
        if self.body_covers(candidate) {
            self.status = Status::Ended(EndReason::SelfCollision);
            return Some(EndReason::SelfCollision);
        }
        let eats = match self.food {
            Some(f) => f == candidate,
            None => false,
        };
        let mut body: VecDeque<Position> = VecDeque::new();
        proof {
            lemma_without_body(self@);
        }
        std::mem::swap(&mut self.body, &mut body);
        body.push_front(self.head);
        if !eats {
            body.pop_back();
        }
        assert(body@ =~= old(self)@.body_after_move());
        let cells: usize = self.grid.cell_count() as usize;
        let won = body.len() + 1 == cells;
        *self = World {
            grid: self.grid,
            head: candidate,
            body,
            food: if eats {
                None
            } else {
                self.food
            },
            pending: self.pending,
            heading: self.pending,
            status: if won {
                Status::Ended(EndReason::Victory)
            } else {
                Status::Running
            },
        };
        if won {
            Some(EndReason::Victory)
        } else {
            None
        }
    }

    /// Whether the snake, head included, covers `p`.
    pub fn occupies(&self, p: Position) -> (covered: bool)
        ensures
            covered == self@.occupies(p),
    {
        p == self.head || self.body_covers(p)
    }

    /// Puts food on `p` if the world has none and `p` is a free cell of the
    /// grid; otherwise changes nothing. Returns whether food was put down.
    pub fn place_food(&mut self, p: Position) -> (placed: bool)
        ensures
            final(self)@ == old(self)@.with_food(p),
            placed == old(self)@.takes_food(p),
            final(self)@.wf(),
    {
        proof {
            use_type_invariant(&*self);
        }
        if self.food.is_some() || !self.grid.contains(p) || self.occupies(p) {
            return false;
        }
        self.food = Some(p);
        true
    }

    /// The first free cell when the grid is read row by row, or `None`
    /// where the snake covers every cell.
    pub fn first_free_cell(&self) -> (found: Option<Position>)
        ensures
            found is Some <==> self@.has_free_cell(),
            found matches Some(p) ==> self@.is_free(p) && forall|q: Position|
                self@.is_free(q) ==> no_later(p, q),
    {
        let mut row: u16 = 0;
        while row < self.grid.rows
            invariant
                row <= self.grid.rows,
                forall|q: Position| self@.is_free(q) ==> q.row >= row,
            decreases self.grid.rows - row,
        {
            let mut col: u16 = 0;
            while col < self.grid.cols
                invariant
                    row < self.grid.rows,
                    col <= self.grid.cols,
                    forall|q: Position| self@.is_free(q) ==> q.row >= row,
                    forall|q: Position| self@.is_free(q) && q.row == row ==> q.col >= col,
                decreases self.grid.cols - col,
            {
                let p = Position { row, col };
                if !self.occupies(p) {
                    assert(self@.is_free(p));
                    return Some(p);
                }
                col += 1;
            }
            row += 1;
        }
        None
    }

    /// One food tick. Where food is present already, or the snake leaves no
    /// cell free, nothing changes. Otherwise cells are drawn at random
    /// until one is free, and food is put there; after `DRAW_LIMIT` draws
    /// without a free cell the first free cell is taken. Returns whether
    /// food was put down.
    pub fn maybe_spawn_food(&mut self, rng: &mut StdRng) -> (placed: bool)
        ensures
            old(self)@.spawns_into(final(self)@),
            placed == (old(self)@.food is None && old(self)@.has_free_cell()),
            final(self)@.wf(),
    {
        proof {
            use_type_invariant(&*self);
            lemma_snake_fits(self@);
        }
        if self.food.is_some() {
            return false;
        }
        let cells: usize = self.grid.cell_count() as usize;
        if self.body.len() + 1 >= cells {
            return false;
        }
        let mut draws: u32 = 0;
        while draws < DRAW_LIMIT
            invariant
                self@ == old(self)@,
                self@.wf(),
                self@.food is None,
                self@.has_free_cell(),
            decreases DRAW_LIMIT - draws,
        {
            let row_draw: u16 = draw_u16(rng);
            let col_draw: u16 = draw_u16(rng);
            let p = self.grid.wrap(row_draw, col_draw);
            if self.place_food(p) {
                return true;
            }
            draws += 1;
        }
        match self.first_free_cell() {
            Some(p) => self.place_food(p),
            None => false,
        }
    }
}

} // verus!
