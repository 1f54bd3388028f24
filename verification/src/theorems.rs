//! What holds of every session, proved from the model.

use crate::grid::{Direction, Grid, Position};
use crate::model::{EndReason, Status, WorldState};
use crate::wellformed::{lemma_snake_fits, lemma_step_keeps_wf};
use vstd::prelude::*;

verus! {

/// `q` lies exactly one cell from `p` in direction `d`.
pub open spec fn one_cell_on(p: Position, d: Direction, q: Position) -> bool {
    match d {
        Direction::Up => q.row + 1 == p.row && q.col == p.col,
        Direction::Down => q.row == p.row + 1 && q.col == p.col,
        Direction::Left => q.row == p.row && q.col + 1 == p.col,
        Direction::Right => q.row == p.row && q.col == p.col + 1,
    }
}

/// `p` lies on the edge of the grid that direction `d` points at.
pub open spec fn at_edge(grid: Grid, p: Position, d: Direction) -> bool {
    match d {
        Direction::Up => p.row == 0,
        Direction::Down => p.row + 1 >= grid.rows,
        Direction::Left => p.col == 0,
        Direction::Right => p.col + 1 >= grid.cols,
    }
}

/// On every grid with at least one row and one column a session starts
/// well formed and running, with an empty body and no food.
pub proof fn lemma_fresh_world(grid: Grid)
    requires
        grid.is_valid(),
    ensures
        WorldState::initial(grid).wf(),
        WorldState::initial(grid).status == Status::Running,
        WorldState::initial(grid).body.len() == 0,
        WorldState::initial(grid).food is None,
{
    assert(1 * 1 <= grid.rows * grid.cols) by (nonlinear_arith)
        requires
            grid.rows >= 1,
            grid.cols >= 1,
    ;
}

/// A movement step into an open cell puts the head exactly one cell
/// further in the pending direction, keeps the session from ending for any
/// reason but victory, and leaves the snake as long as it was, or one
/// longer where the head has reached the food.
pub proof fn lemma_open_move(w: WorldState)
    requires
        w.wf(),
        w.move_is_open(),
    ensures
        one_cell_on(w.head, w.pending, w.step().head),
        w.step().heading == w.pending,
        w.eats() ==> w.step().length() == w.length() + 1 && w.step().food is None,
        !w.eats() ==> w.step().length() == w.length() && w.step().food == w.food,
        w.step().body.len() > 0 ==> w.step().body[0] == w.head,
        w.step().status == Status::Running || w.step().status == Status::Ended(
            EndReason::Victory,
        ),
{
}

/// The head is held back by the wall exactly when it lies on the edge that
/// the pending direction points at. A movement step then ends the session
/// as blocked by the wall and changes nothing else.
pub proof fn lemma_wall_block(w: WorldState)
    requires
        w.wf(),
        w.status == Status::Running,
    ensures
        w.wall_blocked() <==> at_edge(w.grid, w.head, w.pending),
        w.wall_blocked() ==> w.step() == (WorldState {
            status: Status::Ended(EndReason::WallBlocked),
            ..w
        }),
{
}

/// A movement step that sends the head into a cell of the body ends the
/// session as a collision of the snake with itself and changes nothing
/// else.
pub proof fn lemma_self_collision(w: WorldState)
    requires
        w.wf(),
        w.status == Status::Running,
        w.bites_itself(),
    ensures
        w.step() == (WorldState { status: Status::Ended(EndReason::SelfCollision), ..w }),
{
}

/// A request for the reverse of the direction last travelled changes
/// nothing, so the next movement step goes where it would have gone
/// without the request. No request changes the direction last travelled.
pub proof fn lemma_reverse_is_ignored(w: WorldState, d: Direction)
    ensures
        w.with_intent(w.heading.opposite()) == w,
        w.with_intent(w.heading.opposite()).step() == w.step(),
        w.with_intent(d).heading == w.heading,
        w.with_intent(d).with_intent(w.heading.opposite()) == w.with_intent(d),
{
}

/// Whatever a food step leaves behind is well formed, and food in it lies
/// on a cell of the grid that neither the head nor the body covers.
pub proof fn lemma_food_lands_free(w: WorldState, after: WorldState)
    requires
        w.wf(),
        w.spawns_into(after),
    ensures
        after.wf(),
        after.food matches Some(p) ==> after.grid.contains(p) && p != after.head
            && !after.body.contains(p),
        after.food is Some <==> w.food is Some || w.has_free_cell(),
{
}

/// A movement step ends the session as won exactly when it moves the
/// snake and the snake then covers as many cells as the grid has. A
/// session that is won has no free cell left, and on a grid of more than
/// one cell a session that is running has one.
pub proof fn lemma_victory_on_fill(w: WorldState)
    requires
        w.wf(),
        w.status == Status::Running,
    ensures
        w.step().status == Status::Ended(EndReason::Victory) <==> w.move_is_open()
            && w.step().length() == w.grid.cells(),
        w.step().status == Status::Ended(EndReason::Victory) ==> !w.step().has_free_cell(),
        w.grid.cells() > 1 ==> w.has_free_cell(),
{
    lemma_step_keeps_wf(w);
    lemma_snake_fits(w);
    lemma_snake_fits(w.step());
}

} // verus!
