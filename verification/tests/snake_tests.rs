use snake_game::draw::{to_coord_u32, ColorRole, Rect};
use snake_game::snake::{Block, Direction, Snake};

fn body_cells(s: &Snake) -> Vec<(i32, i32)> {
    s.draw().iter().map(|r| (r.x, r.y)).collect()
}

#[test]
fn opposite_pairs_and_involution() {
    assert_eq!(Direction::Up.opposite(), Direction::Down);
    assert_eq!(Direction::Down.opposite(), Direction::Up);
    assert_eq!(Direction::Left.opposite(), Direction::Right);
    assert_eq!(Direction::Right.opposite(), Direction::Left);
    assert_eq!(Direction::Up.opposite().opposite(), Direction::Up);
    assert_eq!(Direction::Left.opposite().opposite(), Direction::Left);
}

#[test]
fn new_snake_lies_on_its_row_heading_right() {
    let s = Snake::new(2, 2);
    assert_eq!(s.head_position(), (4, 2));
    assert_eq!(s.head_direction(), Direction::Right);
    assert_eq!(body_cells(&s), vec![(4, 2), (3, 2), (2, 2)]);
}

#[test]
fn next_head_is_pure() {
    let s = Snake::new(2, 2);
    assert_eq!(s.next_head(None), (5, 2));
    assert_eq!(s.next_head(Some(Direction::Up)), (4, 1));
    assert_eq!(s.next_head(Some(Direction::Down)), (4, 3));
    assert_eq!(s.next_head(Some(Direction::Left)), (3, 2));
    assert_eq!(s.head_position(), (4, 2));
    assert_eq!(s.head_direction(), Direction::Right);
}

#[test]
fn move_forward_preserves_length() {
    let mut s = Snake::new(2, 2);
    assert_eq!(s.draw().len(), 3);
    s.move_forward(None);
    assert_eq!(s.draw().len(), 3);
    assert_eq!(s.head_position(), (5, 2));
    s.move_forward(Some(Direction::Down));
    assert_eq!(s.draw().len(), 3);
    assert_eq!(s.head_position(), (5, 3));
    assert_eq!(s.head_direction(), Direction::Down);
}

#[test]
fn restore_tail_grows_by_one_after_a_move() {
    let mut s = Snake::new(0, 0);
    s.move_forward(Some(Direction::Down));
    assert_eq!(body_cells(&s), vec![(2, 1), (2, 0), (1, 0)]);
    s.restore_tail();
    assert_eq!(body_cells(&s), vec![(2, 1), (2, 0), (1, 0), (0, 0)]);
    assert_eq!(s.draw().len(), 4);
}

#[test]
fn overlap_tail_excludes_the_head_cell() {
    let s = Snake::new(2, 2);
    assert!(s.overlap_tail(2, 2));
    assert!(s.overlap_tail(3, 2));
    assert!(!s.overlap_tail(4, 2));
    assert!(!s.overlap_tail(10, 10));
    assert!(!s.overlap_tail(4, 3));
}

#[test]
fn snake_draw_describes_the_body_in_order() {
    let s = Snake::new(2, 2);
    let rects = s.draw();
    assert_eq!(rects.len(), 3);
    assert_eq!(rects[0], Rect { color: ColorRole::Snake, x: 4, y: 2, width: 1, height: 1 });
    assert_eq!(rects[1], Rect { color: ColorRole::Snake, x: 3, y: 2, width: 1, height: 1 });
    assert_eq!(rects[2], Rect { color: ColorRole::Snake, x: 2, y: 2, width: 1, height: 1 });
}

#[test]
fn to_coord_u32_scales_and_clamps() {
    assert_eq!(to_coord_u32(0), 0);
    assert_eq!(to_coord_u32(1), 25);
    assert_eq!(to_coord_u32(30), 750);
    assert_eq!(to_coord_u32(-5), 0);
    assert_eq!(to_coord_u32(i32::MAX), u32::MAX);
}

#[test]
fn blocks_are_plain_values() {
    assert_eq!(Block { x: 1, y: 2 }, Block { x: 1, y: 2 });
    assert_ne!(Block { x: 1, y: 2 }, Block { x: 2, y: 1 });
}
