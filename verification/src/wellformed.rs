//! Well-formed worlds: how much room the snake takes, and that every
//! operation of the model keeps a well-formed world well formed.

use crate::grid::{Direction, Position};
use crate::model::{KeysDown, Status, WorldState};
use crate::occupancy::{distinct_cells, lemma_distinct_cells_fit};
use vstd::prelude::*;

verus! {

/// The snake of a well-formed world is a list of distinct cells of the grid.
pub proof fn lemma_snake_is_distinct(w: WorldState)
    requires
        w.wf(),
    ensures
        distinct_cells(w.grid, w.snake()),
        forall|p: Position| w.snake().contains(p) <==> w.occupies(p),
{
    let snake = w.snake();
    assert(snake[0] == w.head);
    assert(forall|i: int| 1 <= i < snake.len() ==> snake[i] == w.body[i - 1]);
    assert forall|p: Position| snake.contains(p) <==> w.occupies(p) by {
        if w.body.contains(p) {
            let i: int = choose|i: int| 0 <= i < w.body.len() && w.body[i] == p;
            assert(snake[i + 1] == p);
        }
    }
}

/// The snake of a well-formed world is never longer than the grid has
/// cells, and a free cell is left exactly while it is shorter.
pub proof fn lemma_snake_fits(w: WorldState)
    requires
        w.wf(),
    ensures
        w.length() <= w.grid.cells(),
        w.has_free_cell() <==> w.length() < w.grid.cells(),
{
    lemma_snake_is_distinct(w);
    lemma_distinct_cells_fit(w.grid, w.snake());
    if w.length() < w.grid.cells() {
        let p: Position = choose|p: Position| w.grid.contains(p) && !w.snake().contains(p);
        assert(w.is_free(p));
    }
}

/// A running world stays well formed when its body is taken away.
pub proof fn lemma_without_body(w: WorldState)
    requires
        w.wf(),
        w.status == Status::Running,
    ensures
        (WorldState { body: Seq::empty(), ..w }).wf(),
{
    lemma_snake_fits(w);
}

/// A movement step keeps a well-formed world well formed.
pub proof fn lemma_step_keeps_wf(w: WorldState)
    requires
        w.wf(),
    ensures
        w.step().wf(),
{
    if w.move_is_open() {
        let next = w.step();
        let grown = w.snake();
        assert(grown.len() == w.body.len() + 1);
        assert(grown[0] == w.head);
        assert(forall|i: int| 1 <= i < grown.len() ==> grown[i] == w.body[i - 1]);
        assert(next.body.len() <= grown.len());
        assert(forall|i: int| 0 <= i < next.body.len() ==> next.body[i] == grown[i]);
        assert(next.grid.contains(next.head));
        assert(!next.body.contains(next.head));
        assert(next.body.no_duplicates());
        match next.food {
            Some(f) => {
                assert(w.food == Some(f));
                assert(f != next.head);
                assert(!next.body.contains(f));
            },
            None => {},
        }
        let snake = next.snake();
        assert(snake[0] == next.head);
        assert(forall|i: int| 1 <= i < snake.len() ==> snake[i] == next.body[i - 1]);
        lemma_distinct_cells_fit(next.grid, snake);
    }
}

/// Steering keeps a well-formed world well formed, whether it is asked
/// for directly or through the held keys.
pub proof fn lemma_steering_keeps_wf(w: WorldState, d: Direction, keys: KeysDown)
    requires
        w.wf(),
    ensures
        w.with_intent(d).wf(),
        w.with_keys(keys).wf(),
{
}

/// An attempt to put food down keeps a well-formed world well formed.
pub proof fn lemma_food_keeps_wf(w: WorldState, p: Position)
    requires
        w.wf(),
    ensures
        w.with_food(p).wf(),
{
}

/// Any number of movement steps keeps a well-formed world well formed.
pub proof fn lemma_steps_keep_wf(w: WorldState, n: nat)
    requires
        w.wf(),
    ensures
        w.steps(n).wf(),
    decreases n,
{
    if n > 0 {
        lemma_steps_keep_wf(w, (n - 1) as nat);
        lemma_step_keeps_wf(w.steps((n - 1) as nat));
    }
}

/// Movement steps leave a world that has ended as it is.
pub proof fn lemma_steps_of_ended(w: WorldState, n: nat)
    requires
        w.status != Status::Running,
    ensures
        w.steps(n) == w,
    decreases n,
{
    if n > 0 {
        lemma_steps_of_ended(w, (n - 1) as nat);
    }
}

/// `a + b` movement steps are `a` steps followed by `b` steps.
pub proof fn lemma_steps_split(w: WorldState, a: nat, b: nat)
    ensures
        w.steps(a + b) == w.steps(a).steps(b),
    decreases b,
{
    if b > 0 {
        lemma_steps_split(w, a, (b - 1) as nat);
        assert(a + b - 1 == a + (b - 1));
    }
}

} // verus!
