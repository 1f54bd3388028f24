use rust_snake::{Direction, EndReason, Grid, KeysDown, Position, Status, World};

fn world_on(rows: u16, cols: u16) -> World {
    World::new(Grid { rows, cols }).unwrap()
}

fn at(row: u16, col: u16) -> Position {
    Position { row, col }
}

/// Puts food in front of the head in direction `d` and moves there.
fn grow(world: &mut World, d: Direction) {
    let target = world.grid().neighbor(world.head(), d);
    assert!(world.place_food(target));
    assert!(world.set_direction_intent(d));
    assert_eq!(world.step(), None);
}

fn go(world: &mut World, d: Direction) {
    assert!(world.set_direction_intent(d));
    assert_eq!(world.step(), None);
}

fn no_keys() -> KeysDown {
    KeysDown { up: false, down: false, left: false, right: false }
}

#[test]
fn new_refuses_a_grid_without_cells() {
    assert!(World::new(Grid { rows: 0, cols: 10 }).is_none());
    assert!(World::new(Grid { rows: 10, cols: 0 }).is_none());
    assert!(World::new(Grid { rows: 0, cols: 0 }).is_none());
    assert!(World::new(Grid { rows: 1, cols: 1 }).is_some());
}

#[test]
fn fresh_world_runs_with_empty_body_and_no_food() {
    for rows in 2..12u16 {
        for cols in 2..12u16 {
            let world = world_on(rows, cols);
            assert_eq!(world.status(), Status::Running);
            assert!(world.is_running());
            assert_eq!(world.end_reason(), None);
            assert!(world.body().is_empty());
            assert_eq!(world.food(), None);
            assert_eq!(world.length(), 1);
            assert_eq!(world.grid(), Grid { rows, cols });
            assert!(world.grid().contains(world.head()));
        }
    }
}

#[test]
fn fresh_world_starts_at_five_five_heading_down() {
    let world = world_on(10, 10);
    assert_eq!(world.head(), at(5, 5));
    assert_eq!(world.heading(), Direction::Down);
    assert_eq!(world.pending(), Direction::Down);
}

#[test]
fn restart_brings_back_the_initial_world() {
    let mut world = world_on(10, 10);
    grow(&mut world, Direction::Right);
    grow(&mut world, Direction::Right);
    assert!(world.place_food(at(0, 0)));
    go(&mut world, Direction::Up);
    world.restart();
    assert_eq!(world.status(), Status::Running);
    assert_eq!(world.head(), at(5, 5));
    assert!(world.body().is_empty());
    assert_eq!(world.food(), None);
    assert_eq!(world.heading(), Direction::Down);
    assert_eq!(world.pending(), Direction::Down);
    assert_eq!(world.grid(), Grid { rows: 10, cols: 10 });
}

#[test]
fn restart_revives_an_ended_world() {
    let mut world = world_on(2, 2);
    assert_eq!(world.step(), Some(EndReason::WallBlocked));
    assert!(!world.is_running());
    world.restart();
    assert!(world.is_running());
    assert_eq!(world.head(), at(1, 1));
}

#[test]
fn one_step_right_from_five_five() {
    let mut world = world_on(10, 10);
    assert_eq!(world.head(), at(5, 5));
    assert!(world.set_direction_intent(Direction::Right));
    assert_eq!(world.step(), None);
    assert_eq!(world.head(), at(5, 6));
    assert!(world.body().is_empty());
    assert_eq!(world.status(), Status::Running);
}

#[test]
fn open_move_without_food_keeps_the_length() {
    let mut world = world_on(10, 10);
    grow(&mut world, Direction::Right);
    grow(&mut world, Direction::Right);
    assert_eq!(world.length(), 3);
    assert!(world.place_food(at(0, 0)));
    go(&mut world, Direction::Down);
    assert_eq!(world.head(), at(6, 7));
    assert_eq!(world.body(), vec![at(5, 7), at(5, 6)]);
    assert_eq!(world.length(), 3);
    assert_eq!(world.food(), Some(at(0, 0)));
    assert_eq!(world.heading(), Direction::Down);
}

#[test]
fn open_move_onto_food_grows_by_one() {
    let mut world = world_on(10, 10);
    assert!(world.place_food(at(6, 5)));
    assert_eq!(world.step(), None);
    assert_eq!(world.head(), at(6, 5));
    assert_eq!(world.body(), vec![at(5, 5)]);
    assert_eq!(world.length(), 2);
    assert_eq!(world.food(), None);
    assert!(world.place_food(at(7, 5)));
    assert_eq!(world.step(), None);
    assert_eq!(world.head(), at(7, 5));
    assert_eq!(world.body(), vec![at(6, 5), at(5, 5)]);
    assert_eq!(world.length(), 3);
}

#[test]
fn every_direction_moves_the_head_one_cell() {
    let mut world = world_on(10, 10);
    go(&mut world, Direction::Left);
    assert_eq!(world.head(), at(5, 4));
    go(&mut world, Direction::Up);
    assert_eq!(world.head(), at(4, 4));
    go(&mut world, Direction::Right);
    assert_eq!(world.head(), at(4, 5));
    go(&mut world, Direction::Down);
    assert_eq!(world.head(), at(5, 5));
}

#[test]
fn wall_block_at_the_bottom_edge() {
    let mut world = world_on(10, 10);
    for row in 6..10u16 {
        assert_eq!(world.step(), None);
        assert_eq!(world.head(), at(row, 5));
    }
    assert_eq!(world.head(), at(9, 5));
    assert_eq!(world.step(), Some(EndReason::WallBlocked));
    assert_eq!(world.status(), Status::Ended(EndReason::WallBlocked));
    assert_eq!(world.head(), at(9, 5));
    assert!(world.body().is_empty());
}

#[test]
fn wall_block_at_the_top_edge() {
    let mut world = world_on(10, 10);
    go(&mut world, Direction::Left);
    for row in (0..5u16).rev() {
        go(&mut world, Direction::Up);
        assert_eq!(world.head(), at(row, 4));
    }
    assert_eq!(world.step(), Some(EndReason::WallBlocked));
    assert_eq!(world.status(), Status::Ended(EndReason::WallBlocked));
    assert_eq!(world.head(), at(0, 4));
}

#[test]
fn wall_block_at_the_right_edge() {
    let mut world = world_on(10, 10);
    for col in 6..10u16 {
        go(&mut world, Direction::Right);
        assert_eq!(world.head(), at(5, col));
    }
    assert_eq!(world.step(), Some(EndReason::WallBlocked));
    assert_eq!(world.status(), Status::Ended(EndReason::WallBlocked));
    assert_eq!(world.head(), at(5, 9));
}

#[test]
fn wall_block_at_the_left_edge() {
    let mut world = world_on(10, 10);
    for col in (0..5u16).rev() {
        go(&mut world, Direction::Left);
        assert_eq!(world.head(), at(5, col));
    }
    assert_eq!(world.step(), Some(EndReason::WallBlocked));
    assert_eq!(world.status(), Status::Ended(EndReason::WallBlocked));
    assert_eq!(world.head(), at(5, 0));
}

#[test]
fn wall_block_leaves_head_body_and_food_alone() {
    let mut world = world_on(10, 10);
    grow(&mut world, Direction::Right);
    grow(&mut world, Direction::Right);
    go(&mut world, Direction::Right);
    go(&mut world, Direction::Right);
    assert_eq!(world.head(), at(5, 9));
    assert!(world.place_food(at(2, 2)));
    let body = world.body();
    assert_eq!(body, vec![at(5, 8), at(5, 7)]);
    assert_eq!(world.step(), Some(EndReason::WallBlocked));
    assert_eq!(world.head(), at(5, 9));
    assert_eq!(world.body(), body);
    assert_eq!(world.food(), Some(at(2, 2)));
    assert_eq!(world.heading(), Direction::Right);
    assert_eq!(world.length(), 3);
}

#[test]
fn both_axes_block_on_the_same_cell_count() {
    let mut down = world_on(8, 8);
    let mut steps_down = 0;
    while down.step().is_none() {
        steps_down += 1;
    }
    let mut right = world_on(8, 8);
    assert!(right.set_direction_intent(Direction::Right));
    let mut steps_right = 0;
    while right.step().is_none() {
        steps_right += 1;
    }
    assert_eq!(steps_down, 2);
    assert_eq!(steps_right, 2);
    assert_eq!(down.head(), at(7, 5));
    assert_eq!(right.head(), at(5, 7));
}

#[test]
fn running_into_the_body_ends_in_self_collision() {
    let mut world = world_on(10, 10);
    for _ in 0..4 {
        grow(&mut world, Direction::Right);
    }
    assert_eq!(world.length(), 5);
    go(&mut world, Direction::Down);
    go(&mut world, Direction::Left);
    assert_eq!(world.head(), at(6, 8));
    let body = world.body();
    assert_eq!(body, vec![at(6, 9), at(5, 9), at(5, 8), at(5, 7)]);
    assert!(world.set_direction_intent(Direction::Up));
    assert_eq!(world.step(), Some(EndReason::SelfCollision));
    assert_eq!(world.status(), Status::Ended(EndReason::SelfCollision));
    assert_eq!(world.end_reason(), Some(EndReason::SelfCollision));
    assert_eq!(world.head(), at(6, 8));
    assert_eq!(world.body(), body);
}

#[test]
fn running_into_the_tail_cell_is_a_collision() {
    let mut world = world_on(10, 10);
    grow(&mut world, Direction::Right);
    grow(&mut world, Direction::Down);
    grow(&mut world, Direction::Left);
    assert_eq!(world.head(), at(6, 5));
    assert_eq!(world.body(), vec![at(6, 6), at(5, 6), at(5, 5)]);
    assert!(world.set_direction_intent(Direction::Up));
    assert_eq!(world.step(), Some(EndReason::SelfCollision));
    assert_eq!(world.head(), at(6, 5));
}

#[test]
fn ended_world_ignores_steps_and_intents() {
    let mut world = world_on(2, 2);
    assert_eq!(world.step(), Some(EndReason::WallBlocked));
    assert_eq!(world.step(), None);
    assert_eq!(world.status(), Status::Ended(EndReason::WallBlocked));
    assert!(!world.accepts(Direction::Left));
    assert!(!world.set_direction_intent(Direction::Left));
    assert_eq!(world.pending(), Direction::Down);
    assert_eq!(world.handle_input(KeysDown { left: true, ..no_keys() }), None);
    assert_eq!(world.pending(), Direction::Down);
    assert_eq!(world.head(), at(1, 1));
}

#[test]
fn reverse_of_travel_is_ignored() {
    let mut world = world_on(10, 10);
    assert!(!world.accepts(Direction::Up));
    assert!(!world.set_direction_intent(Direction::Up));
    assert_eq!(world.pending(), Direction::Down);
    assert_eq!(world.step(), None);
    assert_eq!(world.head(), at(6, 5));
    go(&mut world, Direction::Right);
    assert!(!world.set_direction_intent(Direction::Left));
    assert_eq!(world.step(), None);
    assert_eq!(world.head(), at(6, 7));
}

#[test]
fn reverse_is_judged_by_the_last_move_not_the_last_request() {
    let mut world = world_on(10, 10);
    assert!(world.set_direction_intent(Direction::Left));
    assert_eq!(world.heading(), Direction::Down);
    assert!(!world.set_direction_intent(Direction::Up));
    assert_eq!(world.pending(), Direction::Left);
    assert!(world.set_direction_intent(Direction::Right));
    assert_eq!(world.pending(), Direction::Right);
    assert_eq!(world.step(), None);
    assert_eq!(world.head(), at(5, 6));
    assert_eq!(world.heading(), Direction::Right);
    assert!(world.set_direction_intent(Direction::Up));
    assert!(!world.set_direction_intent(Direction::Left));
    assert_eq!(world.pending(), Direction::Up);
}

#[test]
fn handle_input_takes_the_first_key_that_is_accepted() {
    let mut world = world_on(10, 10);
    let all = KeysDown { up: true, down: true, left: true, right: true };
    assert_eq!(world.handle_input(all), Some(Direction::Down));
    assert_eq!(world.handle_input(KeysDown { down: false, ..all }), Some(Direction::Right));
    assert_eq!(world.pending(), Direction::Right);
    assert_eq!(
        world.handle_input(KeysDown { up: true, left: true, ..no_keys() }),
        Some(Direction::Left)
    );
    assert_eq!(world.handle_input(KeysDown { up: true, ..no_keys() }), None);
    assert_eq!(world.pending(), Direction::Left);
    assert_eq!(world.handle_input(no_keys()), None);
    assert_eq!(world.pending(), Direction::Left);
}

#[test]
fn handle_input_skips_the_reverse_key() {
    let mut world = world_on(10, 10);
    go(&mut world, Direction::Right);
    go(&mut world, Direction::Up);
    assert_eq!(world.heading(), Direction::Up);
    let keys = KeysDown { down: true, left: true, ..no_keys() };
    assert_eq!(world.handle_input(keys), Some(Direction::Left));
    assert_eq!(world.pending(), Direction::Left);
    assert_eq!(world.handle_input(KeysDown { down: true, ..no_keys() }), None);
    assert_eq!(world.handle_input(KeysDown { up: true, down: true, ..no_keys() }),
        Some(Direction::Up));
}

#[test]
fn victory_comes_with_the_step_that_fills_the_grid() {
    let mut world = world_on(2, 2);
    assert_eq!(world.head(), at(1, 1));
    grow(&mut world, Direction::Left);
    assert_eq!(world.status(), Status::Running);
    assert_eq!(world.length(), 2);
    grow(&mut world, Direction::Up);
    assert_eq!(world.status(), Status::Running);
    assert_eq!(world.length(), 3);
    assert!(world.place_food(at(0, 1)));
    assert!(world.set_direction_intent(Direction::Right));
    assert_eq!(world.step(), Some(EndReason::Victory));
    assert_eq!(world.status(), Status::Ended(EndReason::Victory));
    assert_eq!(world.length(), 4);
    assert_eq!(world.head(), at(0, 1));
    assert_eq!(world.body(), vec![at(0, 0), at(1, 0), at(1, 1)]);
    assert_eq!(world.food(), None);
    assert_eq!(world.first_free_cell(), None);
}

#[test]
fn no_victory_without_filling_the_grid() {
    let mut world = world_on(2, 2);
    grow(&mut world, Direction::Left);
    grow(&mut world, Direction::Up);
    go(&mut world, Direction::Right);
    assert_eq!(world.length(), 3);
    assert_eq!(world.status(), Status::Running);
    assert_eq!(world.first_free_cell(), Some(at(1, 1)));
}

#[test]
fn victory_on_a_single_row() {
    let mut world = world_on(1, 2);
    assert_eq!(world.head(), at(0, 1));
    assert!(world.place_food(at(0, 0)));
    assert!(world.set_direction_intent(Direction::Left));
    assert_eq!(world.step(), Some(EndReason::Victory));
    assert_eq!(world.length(), 2);
}

#[test]
fn single_cell_world_can_only_hit_the_wall() {
    let mut world = world_on(1, 1);
    assert!(world.is_running());
    assert_eq!(world.length(), 1);
    assert_eq!(world.first_free_cell(), None);
    assert!(world.set_direction_intent(Direction::Left));
    assert_eq!(world.step(), Some(EndReason::WallBlocked));
}

#[test]
fn occupies_tells_head_and_body_from_the_rest() {
    let mut world = world_on(10, 10);
    grow(&mut world, Direction::Right);
    grow(&mut world, Direction::Right);
    assert!(world.occupies(at(5, 7)));
    assert!(world.occupies(at(5, 6)));
    assert!(world.occupies(at(5, 5)));
    assert!(!world.occupies(at(5, 8)));
    assert!(!world.occupies(at(5, 4)));
    assert!(!world.occupies(at(0, 0)));
}
