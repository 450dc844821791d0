use snake_game::draw::{draw_block, draw_rectangle, ColorRole, Rect};
use snake_game::game::{Game, Key};
use snake_game::snake::{Block, Direction};

fn body_cells(g: &Game) -> Vec<(i32, i32)> {
    g.draw()
        .iter()
        .filter(|r| r.color == ColorRole::Snake)
        .map(|r| (r.x, r.y))
        .collect()
}

#[test]
fn fresh_game_layout() {
    let g = Game::new(30, 30);
    assert!(!g.is_game_over());
    assert_eq!(g.head_position(), (4, 2));
    assert_eq!(g.food(), Some(Block { x: 6, y: 4 }));
    let rects = g.draw();
    assert_eq!(rects.len(), 8);
    assert_eq!(rects[0], Rect { color: ColorRole::Snake, x: 4, y: 2, width: 1, height: 1 });
    assert_eq!(rects[1], Rect { color: ColorRole::Snake, x: 3, y: 2, width: 1, height: 1 });
    assert_eq!(rects[2], Rect { color: ColorRole::Snake, x: 2, y: 2, width: 1, height: 1 });
    assert_eq!(rects[3], Rect { color: ColorRole::Food, x: 6, y: 4, width: 1, height: 1 });
    assert_eq!(rects[4], Rect { color: ColorRole::Border, x: 0, y: 0, width: 30, height: 1 });
    assert_eq!(rects[5], Rect { color: ColorRole::Border, x: 0, y: 29, width: 30, height: 1 });
    assert_eq!(rects[6], Rect { color: ColorRole::Border, x: 0, y: 0, width: 1, height: 30 });
    assert_eq!(rects[7], Rect { color: ColorRole::Border, x: 29, y: 0, width: 1, height: 30 });
}

#[test]
fn key_to_opposite_direction_is_a_noop() {
    let mut g = Game::new(30, 30);
    let before = g.draw();
    g.key_pressed(Key::Left);
    assert_eq!(g.head_position(), (4, 2));
    assert_eq!(g.draw(), before);
    // the heading is unchanged too: the next tick still moves right
    g.update(101);
    assert_eq!(g.head_position(), (5, 2));
}

#[test]
fn unrecognized_key_is_ignored() {
    let mut g = Game::new(30, 30);
    let before = g.draw();
    g.key_pressed(Key::Other);
    assert_eq!(g.draw(), before);
}

#[test]
fn key_press_steps_immediately() {
    let mut g = Game::new(30, 30);
    g.key_pressed(Key::Down);
    assert_eq!(g.head_position(), (4, 3));
    assert_eq!(body_cells(&g), vec![(4, 3), (4, 2), (3, 2)]);
}

#[test]
fn small_deltas_accumulate_to_one_step() {
    let mut g = Game::new(30, 30);
    for _ in 0..10 {
        g.update(10);
    }
    // exactly 100 ms: the period must be exceeded, not reached
    assert_eq!(g.head_position(), (4, 2));
    g.update(1);
    assert_eq!(g.head_position(), (5, 2));
}

#[test]
fn border_is_lethal() {
    let mut g = Game::new(30, 30);
    g.key_pressed(Key::Up);
    g.key_pressed(Key::Left);
    g.key_pressed(Key::Left);
    g.key_pressed(Key::Left);
    assert_eq!(g.head_position(), (1, 1));
    assert!(!g.is_game_over());
    // the cells (1, 0) and (0, 1) lie on the border ring
    assert!(!g.check_if_snake_alive(Some(Direction::Up)));
    assert!(!g.check_if_snake_alive(Some(Direction::Left)));
    assert!(g.check_if_snake_alive(Some(Direction::Down)));
    g.key_pressed(Key::Up);
    assert!(g.is_game_over());
}

#[test]
fn running_into_the_body_is_lethal() {
    let mut g = Game::new(30, 30);
    // grow to length 4 by eating, then curl back into the body
    g.key_pressed(Key::Down);
    g.key_pressed(Key::Down);
    g.key_pressed(Key::Right);
    g.update(101); // eats at (6, 4), body length 4
    assert_eq!(body_cells(&g).len(), 4);
    assert_eq!(g.head_position(), (6, 4));
    g.key_pressed(Key::Down); // (6, 5)
    // turning left then up would cross the body at (5, 4)
    g.key_pressed(Key::Left); // (5, 5)
    assert!(!g.check_if_snake_alive(Some(Direction::Up)));
    g.key_pressed(Key::Up);
    assert!(g.is_game_over());
}

#[test]
fn eating_consumes_food_and_grows() {
    let mut g = Game::new(30, 30);
    g.key_pressed(Key::Down);
    g.key_pressed(Key::Down);
    g.key_pressed(Key::Right);
    assert_eq!(g.head_position(), (5, 4));
    assert_eq!(g.food(), Some(Block { x: 6, y: 4 }));
    assert_eq!(body_cells(&g).len(), 3);
    g.update(101);
    // the cell that held the food is now the head, the food is gone,
    // and the body grew by one
    assert_eq!(g.head_position(), (6, 4));
    assert_eq!(g.food(), None);
    assert_eq!(body_cells(&g).len(), 4);
}

#[test]
fn death_then_restart_after_delay() {
    let mut g = Game::new(30, 30);
    let fresh = g.draw();
    g.key_pressed(Key::Up);
    g.key_pressed(Key::Up); // (4, 0) is on the border: dead
    assert!(g.is_game_over());
    g.update(500);
    assert!(g.is_game_over()); // 500 ms <= restart delay: still over
    g.update(501); // 1001 ms > restart delay: exactly one restart
    assert!(!g.is_game_over());
    assert_eq!(g.head_position(), (4, 2));
    assert_eq!(g.food(), Some(Block { x: 6, y: 4 }));
    assert_eq!(body_cells(&g), vec![(4, 2), (3, 2), (2, 2)]);
    assert_eq!(g.draw(), fresh);
}

#[test]
fn game_over_ignores_keys() {
    let mut g = Game::new(30, 30);
    g.key_pressed(Key::Up);
    g.key_pressed(Key::Up);
    assert!(g.is_game_over());
    let over = g.draw();
    g.key_pressed(Key::Down);
    g.key_pressed(Key::Right);
    assert!(g.is_game_over());
    assert_eq!(g.draw(), over);
}

#[test]
fn game_over_overlay_is_drawn() {
    let mut g = Game::new(30, 30);
    g.key_pressed(Key::Up);
    g.key_pressed(Key::Up);
    assert!(g.is_game_over());
    let rects = g.draw();
    assert_eq!(
        rects.last(),
        Some(&Rect { color: ColorRole::GameOver, x: 0, y: 0, width: 30, height: 30 })
    );
}

#[test]
fn added_food_lies_in_the_interior_off_the_tail() {
    let mut g = Game::new(30, 30);
    for _ in 0..50 {
        g.add_food();
        let f = g.food().expect("a free cell exists on a fresh board");
        assert!(1 <= f.x && f.x <= 28);
        assert!(1 <= f.y && f.y <= 28);
        // never on a body cell other than the head: (3, 2) and (2, 2)
        assert!(!(f.x == 3 && f.y == 2));
        assert!(!(f.x == 2 && f.y == 2));
    }
}

#[test]
fn added_food_takes_the_only_free_cell() {
    // a 3-by-3 board has exactly one interior cell
    let mut g = Game::new(3, 3);
    g.add_food();
    assert_eq!(g.food(), Some(Block { x: 1, y: 1 }));
}

#[test]
fn draw_is_idempotent() {
    let mut g = Game::new(30, 30);
    assert_eq!(g.draw(), g.draw());
    g.key_pressed(Key::Up);
    assert_eq!(g.draw(), g.draw());
    g.key_pressed(Key::Up);
    assert!(g.is_game_over());
    assert_eq!(g.draw(), g.draw());
}

#[test]
fn rectangle_builders() {
    assert_eq!(
        draw_block(ColorRole::Food, 6, 4),
        Rect { color: ColorRole::Food, x: 6, y: 4, width: 1, height: 1 }
    );
    assert_eq!(
        draw_rectangle(ColorRole::Border, 0, 29, 30, 1),
        Rect { color: ColorRole::Border, x: 0, y: 29, width: 30, height: 1 }
    );
}

#[test]
fn update_snake_steps_or_ends_the_game() {
    let mut g = Game::new(30, 30);
    g.update_snake(Some(Direction::Down));
    assert_eq!(g.head_position(), (4, 3));
    assert!(!g.is_game_over());
    // on a 5-by-5 board the fresh head already sits on the border column,
    // so any step is lethal and leaves the body where it was
    let mut g2 = Game::new(5, 5);
    g2.update_snake(Some(Direction::Right));
    assert!(g2.is_game_over());
    assert_eq!(g2.head_position(), (4, 2));
}

#[test]
fn check_eating_without_food_under_head_is_a_noop() {
    let mut g = Game::new(30, 30);
    let before = g.draw();
    g.check_eating();
    assert_eq!(g.draw(), before);
    assert_eq!(g.food(), Some(Block { x: 6, y: 4 }));
}
