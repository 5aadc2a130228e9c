use snake_core::collision::detect_collision;
use snake_core::grid::GridPosition;
use snake_core::heading::map_input;
use snake_core::heading::Heading;
use snake_core::heading::InputState;
use snake_core::movement::move_snake;
use snake_core::spawner::place_food_if_free;
use snake_core::spawner::spawn_foods;
use snake_core::spawner::try_spawn_food;
use snake_core::world::World;

fn pos(x: i32, y: i32) -> GridPosition {
    GridPosition { x, y }
}

fn held(left: bool, down: bool, up: bool, right: bool) -> InputState {
    InputState { left, down, up, right }
}

fn world_with(segments: Vec<GridPosition>, heading: Heading) -> World {
    let mut w = World::new();
    w.segments = segments;
    w.heading = heading;
    w
}

#[test]
fn opposite_forms_two_pairs() {
    assert_eq!(Heading::Left.opposite(), Heading::Right);
    assert_eq!(Heading::Right.opposite(), Heading::Left);
    assert_eq!(Heading::Up.opposite(), Heading::Down);
    assert_eq!(Heading::Down.opposite(), Heading::Up);
}

#[test]
fn reversal_is_rejected_for_every_heading() {
    assert_eq!(map_input(Heading::Left, held(false, false, false, true)), Heading::Left);
    assert_eq!(map_input(Heading::Right, held(true, false, false, false)), Heading::Right);
    assert_eq!(map_input(Heading::Up, held(false, true, false, false)), Heading::Up);
    assert_eq!(map_input(Heading::Down, held(false, false, true, false)), Heading::Down);
}

#[test]
fn input_priority_left_down_up_right() {
    // All four keys held: Left wins over the rest.
    assert_eq!(map_input(Heading::Up, held(true, true, true, true)), Heading::Left);
    // Left and Down held with current heading Right: Left is its opposite,
    // so the candidate Left is rejected and the heading stays Right.
    assert_eq!(map_input(Heading::Right, held(true, true, false, false)), Heading::Right);
    // Down and Up held: Down wins.
    assert_eq!(map_input(Heading::Left, held(false, true, true, false)), Heading::Down);
    // Up and Right held: Up wins.
    assert_eq!(map_input(Heading::Left, held(false, false, true, true)), Heading::Up);
    // No key held: the heading is unchanged.
    assert_eq!(map_input(Heading::Down, InputState::none()), Heading::Down);
}

#[test]
fn movement_is_deterministic() {
    let segments = vec![pos(4, 7), pos(4, 6), pos(5, 6)];
    let (m1, t1) = move_snake(&segments, Heading::Left);
    let (m2, t2) = move_snake(&segments, Heading::Left);
    assert_eq!(m1, m2);
    assert_eq!(t1, t2);
}

#[test]
fn head_moves_one_unit_step_per_heading() {
    let segments = vec![pos(5, 5)];
    assert_eq!(move_snake(&segments, Heading::Left).0[0], pos(4, 5));
    assert_eq!(move_snake(&segments, Heading::Right).0[0], pos(6, 5));
    assert_eq!(move_snake(&segments, Heading::Up).0[0], pos(5, 6));
    assert_eq!(move_snake(&segments, Heading::Down).0[0], pos(5, 4));
}

#[test]
fn segments_shift_to_predecessor_cells() {
    let segments = vec![pos(4, 7), pos(4, 6), pos(5, 6)];
    let (moved, tail) = move_snake(&segments, Heading::Up);
    assert_eq!(moved, vec![pos(4, 8), pos(4, 7), pos(4, 6)]);
    assert_eq!(tail, pos(5, 6));
}

#[test]
fn wall_collision_on_every_side() {
    assert!(detect_collision(&vec![], pos(-1, 5)));
    assert!(detect_collision(&vec![], pos(12, 5)));
    assert!(detect_collision(&vec![], pos(5, -1)));
    assert!(detect_collision(&vec![], pos(5, 12)));
    assert!(!detect_collision(&vec![], pos(0, 0)));
    assert!(!detect_collision(&vec![], pos(11, 11)));
}

#[test]
fn self_collision_against_pre_move_snapshot() {
    let snapshot = vec![pos(5, 5), pos(5, 6), pos(6, 6), pos(6, 5)];
    assert!(detect_collision(&snapshot, pos(6, 5)));
    assert!(!detect_collision(&snapshot, pos(4, 5)));
}

#[test]
fn wall_tick_raises_game_over() {
    // Head at (0,5) heading Left; the tick moves the head to (-1,5) and the
    // game-over signal is raised.
    let mut w = world_with(vec![pos(0, 5)], Heading::Left);
    let ev = w.tick(InputState::none());
    assert!(ev.game_over);
}

#[test]
fn self_collision_tick_raises_game_over() {
    // Moving right, the head lands on a body cell of the pre-move snapshot.
    let mut w = world_with(vec![pos(5, 5), pos(5, 6), pos(6, 6), pos(6, 5)], Heading::Right);
    let ev = w.tick(InputState::none());
    assert!(ev.game_over);
}

#[test]
fn moving_onto_vacated_tail_cell_still_collides() {
    // The snapshot the head is judged against includes the old tail cell,
    // even though the shift is about to vacate it.
    let mut w = world_with(vec![pos(5, 5), pos(5, 4)], Heading::Down);
    let ev = w.tick(InputState::none());
    assert!(ev.game_over);
}

#[test]
fn reset_respawns_canonical_snake() {
    let mut w = world_with(vec![pos(0, 5)], Heading::Left);
    w.score = 7;
    let ev = w.tick(InputState::none());
    assert!(ev.game_over);
    assert_eq!(w.snake_positions().len(), 2);
    assert_eq!(w.snake_positions()[0], pos(3, 3));
    assert_eq!(w.snake_positions()[1], pos(3, 2));
    assert_eq!(w.heading, Heading::Up);
    assert_eq!(w.current_score(), 0);
    assert!(w.food_positions().is_empty());
}

#[test]
fn food_count_never_exceeds_cap() {
    let segments = vec![pos(3, 3), pos(3, 2)];
    let mut foods: Vec<GridPosition> = Vec::new();
    spawn_foods(50, &segments, &mut foods);
    assert!(foods.len() <= 5);
    let mut w = World::new();
    for _ in 0..100 {
        w.tick(InputState::none());
        assert!(w.food_positions().len() <= 5);
    }
}

#[test]
fn spawn_request_at_cap_is_dropped() {
    let segments = vec![pos(3, 3)];
    let mut foods = vec![pos(0, 0), pos(0, 1), pos(0, 2), pos(0, 3), pos(0, 4)];
    let before = foods.clone();
    try_spawn_food(&segments, &mut foods);
    assert_eq!(foods, before);
}

#[test]
fn drawn_cell_is_placed_exactly_when_free() {
    let segments = vec![pos(3, 3), pos(3, 2)];
    let mut foods: Vec<GridPosition> = Vec::new();
    assert!(!place_food_if_free(pos(3, 3), &segments, &mut foods));
    assert!(foods.is_empty());
    assert!(place_food_if_free(pos(7, 7), &segments, &mut foods));
    assert_eq!(foods, vec![pos(7, 7)]);
}

#[test]
fn spawned_food_lands_in_bounds_and_off_snake() {
    // Would fail if the random source handed its bound back unchanged: a
    // draw of 12 would place food outside the arena.
    let mut w = World::new();
    let ev = w.tick(InputState::none());
    assert!(!ev.game_over);
    for f in w.food_positions() {
        assert!(0 <= f.x && f.x < 12 && 0 <= f.y && f.y < 12);
        assert!(!w.snake_positions().contains(f));
    }
}

#[test]
fn eating_removes_food_scores_and_grows() {
    let mut w = World::new();
    w.foods.push(pos(3, 4));
    w.pending_spawns = 0;
    let len_before = w.snake_positions().len();
    let ev = w.tick(InputState::none());
    assert!(!ev.game_over);
    assert_eq!(ev.ate, 1);
    assert_eq!(ev.grew, 1);
    assert_eq!(ev.spawn_requested, 1);
    assert_eq!(w.current_score(), 1);
    assert_eq!(w.snake_positions().len(), len_before + 1);
    // The eaten food is gone: no food lies on the head's cell (the spawner
    // never places one on a snake segment).
    assert!(!w.food_positions().contains(&pos(3, 4)));
}

#[test]
fn start_tick_scenario() {
    // Snake of length 2 at (3,3)/(3,2) heading Up; a tick with no input moves
    // the head to (3,4), the tail segment to (3,3), and records (3,2) as the
    // vacated tail cell.
    let mut w = World::new();
    let ev = w.tick(InputState::none());
    assert!(!ev.game_over);
    assert_eq!(w.snake_positions()[0], pos(3, 4));
    assert_eq!(w.snake_positions()[1], pos(3, 3));
    assert_eq!(w.last_tail, Some(pos(3, 2)));
    assert_eq!(w.current_score(), 0);
}

#[test]
fn eat_scenario_scores_and_queues_spawn() {
    // Food at the snake's new head cell is eaten the same tick: the score
    // goes from 0 to 1 and a spawn request is queued (and answered within
    // the tick's backfill).
    let mut w = World::new();
    w.foods.push(pos(3, 4));
    assert_eq!(w.current_score(), 0);
    let ev = w.tick(InputState::none());
    assert_eq!(w.current_score(), 1);
    assert_eq!(ev.spawn_requested, 1);
}

#[test]
fn two_foods_on_one_cell_are_both_eaten() {
    // Possible only when the no-duplicate spawn rule is bypassed by hand;
    // both are consumed, each scoring independently.
    let mut w = World::new();
    w.foods.push(pos(3, 4));
    w.foods.push(pos(3, 4));
    w.pending_spawns = 0;
    let ev = w.tick(InputState::none());
    assert_eq!(ev.ate, 2);
    assert_eq!(ev.grew, 2);
    assert_eq!(w.current_score(), 2);
    // Each food eaten independently triggers growth, so both segments are
    // appended, each at the cell the tail vacated this move.
    assert_eq!(w.snake_positions().len(), 4);
    assert_eq!(w.snake_positions()[2], pos(3, 2));
    assert_eq!(w.snake_positions()[3], pos(3, 2));
}

#[test]
fn growth_appends_at_vacated_tail_cell() {
    let mut w = World::new();
    w.foods.push(pos(3, 4));
    w.pending_spawns = 0;
    w.tick(InputState::none());
    assert_eq!(w.snake_positions()[2], pos(3, 2));
}

#[test]
fn long_run_stays_well_formed() {
    let mut w = World::new();
    let inputs = [
        held(true, false, false, false),
        held(false, true, false, false),
        held(false, false, false, true),
        held(false, false, true, false),
        InputState::none(),
    ];
    for i in 0..500 {
        w.tick(inputs[i % inputs.len()]);
        assert!(!w.snake_positions().is_empty());
        assert!(w.food_positions().len() <= 5);
        for s in w.snake_positions() {
            assert!(0 <= s.x && s.x < 12 && 0 <= s.y && s.y < 12);
        }
    }
}
