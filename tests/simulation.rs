use snake::game::{GameState, MILLIS_PER_UPDATE};
use snake::grid::{wrap, Direction, GridPosition, InputKey, GRID_H, GRID_W};
use snake::snake::{Ate, Food, Segment, Snake};

fn pos(x: i16, y: i16) -> GridPosition {
    GridPosition::new(x, y)
}

#[test]
fn wrap_lands_in_range_and_is_idempotent() {
    let ns = [1, 2, 20, 30, 1000];
    let xs = [
        0,
        1,
        -1,
        29,
        30,
        -30,
        -31,
        12345,
        -12345,
        i32::MIN,
        i32::MAX,
    ];
    for &n in ns.iter() {
        for &x in xs.iter() {
            let r = wrap(x, n);
            assert!(r >= 0 && r < n, "wrap({}, {}) = {}", x, n, r);
            assert_eq!(wrap(r, n), r);
            assert_eq!(r, x.rem_euclid(n));
        }
    }
}

#[test]
fn wrap_exact_values() {
    assert_eq!(wrap(-1, 30), 29);
    assert_eq!(wrap(30, 30), 0);
    assert_eq!(wrap(-31, 30), 29);
    assert_eq!(wrap(-60, 30), 0);
    assert_eq!(wrap(7, 20), 7);
    assert_eq!(wrap(i32::MIN, 20), 12);
}

#[test]
fn inverse_is_involutive() {
    for d in [Direction::Up, Direction::Down, Direction::Left, Direction::Right] {
        assert_eq!(d.inverse().inverse(), d);
        assert_ne!(d.inverse(), d);
    }
    assert_eq!(Direction::Up.inverse(), Direction::Down);
    assert_eq!(Direction::Left.inverse(), Direction::Right);
}

#[test]
fn keycodes_map_to_directions() {
    assert_eq!(Direction::from_keycode(InputKey::Up), Some(Direction::Up));
    assert_eq!(Direction::from_keycode(InputKey::Down), Some(Direction::Down));
    assert_eq!(Direction::from_keycode(InputKey::Left), Some(Direction::Left));
    assert_eq!(Direction::from_keycode(InputKey::Right), Some(Direction::Right));
    assert_eq!(Direction::from_keycode(InputKey::Other), None);
}

#[test]
fn moves_wrap_on_every_edge() {
    assert_eq!(GridPosition::new_from_move(pos(0, 5), Direction::Left), pos(29, 5));
    assert_eq!(GridPosition::new_from_move(pos(29, 5), Direction::Right), pos(0, 5));
    assert_eq!(GridPosition::new_from_move(pos(4, 0), Direction::Up), pos(4, 19));
    assert_eq!(GridPosition::new_from_move(pos(4, 19), Direction::Down), pos(4, 0));
    assert_eq!(GridPosition::new_from_move(pos(4, 7), Direction::Down), pos(4, 8));
}

#[test]
fn cell_rect_scales_by_cell_size() {
    assert_eq!(pos(3, 2).cell_rect(), (96, 64, 32, 32));
    assert_eq!(pos(0, 0).cell_rect(), (0, 0, 32, 32));
}

#[test]
fn random_positions_stay_in_bounds() {
    let mut seen_other = false;
    for _ in 0..500 {
        let p = GridPosition::random(GRID_W, GRID_H);
        assert!(p.x >= 0 && p.x < GRID_W);
        assert!(p.y >= 0 && p.y < GRID_H);
        if p != pos(0, 0) {
            seen_other = true;
        }
    }
    assert!(seen_other);
    for _ in 0..50 {
        assert_eq!(GridPosition::random(1, 1), pos(0, 0));
    }
}

#[test]
fn new_snake_has_one_segment_behind_head() {
    let s = Snake::new(pos(7, 10));
    assert_eq!(s.head_pos(), pos(7, 10));
    assert_eq!(s.body_positions(), vec![pos(6, 10)]);
    assert_eq!(s.dir(), Direction::Right);
    assert_eq!(s.last_update_dir(), Direction::Right);
    assert_eq!(s.ate(), None);
    assert_eq!(Segment::new(pos(1, 2)).pos, pos(1, 2));
}

#[test]
fn one_update_without_food_moves_one_cell() {
    let mut s = Snake::new(pos(7, 10));
    let food = Food::new(pos(20, 3));
    s.update(&food);
    assert_eq!(s.head_pos(), pos(8, 10));
    assert_eq!(s.body_positions(), vec![pos(7, 10)]);
    assert_eq!(s.body_len(), 1);
    assert_eq!(s.body_positions().len() + 1, 2);
    assert_eq!(s.ate(), None);
}

#[test]
fn head_wraps_past_right_edge() {
    let mut s = Snake::new(pos(29, 10));
    s.update(&Food::new(pos(5, 5)));
    assert_eq!(s.head_pos(), pos(0, 10));
    assert_eq!(s.body_positions(), vec![pos(29, 10)]);
}

#[test]
fn length_is_steady_without_eating() {
    let mut s = Snake::new(pos(7, 10));
    let food = Food::new(pos(3, 3));
    for _ in 0..100 {
        s.update(&food);
        assert_eq!(s.ate(), None);
        assert_eq!(s.body_len(), 1);
    }
    assert_eq!(s.head_pos(), pos((7 + 100) % 30, 10));
}

#[test]
fn food_at_next_head_is_eaten() {
    let mut s = Snake::new(pos(7, 10));
    let food = Food::new(pos(8, 10));
    assert!(!s.eats(&food));
    s.update(&food);
    assert!(s.eats(&food));
    assert_eq!(s.ate(), Some(Ate::Food));
    assert_eq!(s.body_positions(), vec![pos(7, 10), pos(6, 10)]);
    assert_eq!(s.body_positions().len() + 1, 3);
}

#[test]
fn eating_grows_by_one_and_respawns_food_once() {
    let mut g = GameState::start(pos(8, 10), 0);
    g.step(pos(2, 2));
    assert_eq!(g.snake().ate(), Some(Ate::Food));
    assert_eq!(g.snake().body_len(), 2);
    assert_eq!(g.food_pos(), pos(2, 2));
    g.step(pos(4, 4));
    assert_eq!(g.snake().ate(), None);
    assert_eq!(g.snake().body_len(), 2);
    assert_eq!(g.food_pos(), pos(2, 2));
}

#[test]
fn eaten_food_moves_on_clock_update() {
    let mut g = GameState::start(pos(8, 10), 0);
    g.update(MILLIS_PER_UPDATE);
    assert_eq!(g.snake().ate(), Some(Ate::Food));
    assert_eq!(g.snake().body_len(), 2);
    let f = g.food_pos();
    assert!(f.x >= 0 && f.x < GRID_W && f.y >= 0 && f.y < GRID_H);
}

#[test]
fn clock_gates_updates() {
    assert_eq!(MILLIS_PER_UPDATE, 125);
    let mut g = GameState::start(pos(0, 0), 1000);
    assert!(!g.update_due(1124));
    g.update(1124);
    assert_eq!(g.snake().head_pos(), pos(7, 10));
    assert_eq!(g.last_update(), 1000);
    g.update(1125);
    assert_eq!(g.snake().head_pos(), pos(8, 10));
    assert_eq!(g.last_update(), 1125);
    g.update(1200);
    assert_eq!(g.snake().head_pos(), pos(8, 10));
    // many intervals late: still only one update
    g.update(5000);
    assert_eq!(g.snake().head_pos(), pos(9, 10));
    assert_eq!(g.last_update(), 5000);
    // a clock reading before the last update is never due
    g.update(10);
    assert_eq!(g.snake().head_pos(), pos(9, 10));
}

#[test]
fn new_game_layout() {
    let g = GameState::new(42);
    assert_eq!(g.snake().head_pos(), pos(7, 10));
    assert_eq!(g.snake().body_positions(), vec![pos(6, 10)]);
    assert!(!g.is_over());
    assert_eq!(g.last_update(), 42);
    let f = g.food_pos();
    assert!(f.x >= 0 && f.x < GRID_W && f.y >= 0 && f.y < GRID_H);
}

#[test]
fn reversal_is_refused_and_turns_are_taken() {
    let mut g = GameState::start(pos(0, 0), 0);
    g.key_down_event(InputKey::Left);
    assert_eq!(g.snake().dir(), Direction::Right);
    g.key_down_event(InputKey::Up);
    assert_eq!(g.snake().dir(), Direction::Up);
    // still checked against the direction of the last update, not the queued one
    g.key_down_event(InputKey::Left);
    assert_eq!(g.snake().dir(), Direction::Up);
    g.key_down_event(InputKey::Down);
    assert_eq!(g.snake().dir(), Direction::Down);
    g.key_down_event(InputKey::Other);
    assert_eq!(g.snake().dir(), Direction::Down);
    g.step(pos(0, 0));
    assert_eq!(g.snake().head_pos(), pos(7, 11));
    assert_eq!(g.snake().last_update_dir(), Direction::Down);
    g.key_down_event(InputKey::Up);
    assert_eq!(g.snake().dir(), Direction::Down);
}

#[test]
fn queued_left_after_right_does_not_move_left() {
    let mut s = Snake::new(pos(7, 10));
    s.turn(Direction::Left);
    s.update(&Food::new(pos(0, 0)));
    assert_eq!(s.head_pos(), pos(8, 10));
    let mut t = Snake::new(pos(7, 10));
    t.turn(Direction::Up);
    t.update(&Food::new(pos(0, 0)));
    assert_eq!(t.head_pos(), pos(7, 9));
    let mut u = Snake::new(pos(7, 10));
    u.turn(Direction::Down);
    u.update(&Food::new(pos(0, 0)));
    assert_eq!(u.head_pos(), pos(7, 11));
}

fn game_that_bit_itself() -> GameState {
    let mut g = GameState::start(pos(8, 10), 0);
    g.step(pos(9, 10));
    g.step(pos(10, 10));
    g.step(pos(0, 0));
    assert_eq!(g.snake().body_len(), 4);
    g.key_down_event(InputKey::Down);
    g.step(pos(0, 0));
    g.key_down_event(InputKey::Left);
    g.step(pos(0, 0));
    g.key_down_event(InputKey::Up);
    assert!(!g.is_over());
    g.step(pos(0, 0));
    g
}

#[test]
fn biting_itself_ends_the_game() {
    let g = game_that_bit_itself();
    assert!(g.is_over());
    assert_eq!(g.snake().ate(), Some(Ate::Itself));
    assert_eq!(g.snake().head_pos(), pos(9, 10));
    assert_eq!(g.snake().body_len(), 5);
    assert!(g.snake().eats_self());
}

#[test]
fn game_over_is_final() {
    let mut g = game_that_bit_itself();
    let head = g.snake().head_pos();
    let body = g.snake().body_positions();
    let food = g.food_pos();
    let clock = g.last_update();
    for k in 1..20u64 {
        g.key_down_event(InputKey::Right);
        g.update(k * 1000);
        g.step(pos(1, 1));
        assert!(g.is_over());
        assert_eq!(g.snake().head_pos(), head);
        assert_eq!(g.snake().body_positions(), body);
        assert_eq!(g.food_pos(), food);
        assert_eq!(g.last_update(), clock);
    }
}

#[test]
fn food_may_respawn_onto_the_snake() {
    let mut g = GameState::start(pos(8, 10), 0);
    g.step(pos(7, 10));
    assert_eq!(g.food_pos(), pos(7, 10));
    assert!(g.snake().body_positions().contains(&pos(7, 10)));
    assert!(!g.is_over());
}
