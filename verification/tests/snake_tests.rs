use snake_game::draw::to_coord_u32;
use snake_game::snake::{Block, Direction, Snake};

#[test]
fn opposite_pairs() {
    assert_eq!(Direction::Up.opposite(), Direction::Down);
    assert_eq!(Direction::Down.opposite(), Direction::Up);
    assert_eq!(Direction::Left.opposite(), Direction::Right);
    assert_eq!(Direction::Right.opposite(), Direction::Left);
}

#[test]
fn new_snake_layout() {
    let s = Snake::new(2, 2);
    assert_eq!(s.head_direction(), Direction::Right);
    assert_eq!(s.head_position(), (4, 2));
    assert_eq!(s.body, vec![
        Block { x: 4, y: 2 },
        Block { x: 3, y: 2 },
        Block { x: 2, y: 2 },
    ]);
    assert_eq!(s.tail, None);
}

#[test]
fn next_head_moves_one_unit_each_direction() {
    let s = Snake::new(5, 5); // head at (7, 5)
    assert_eq!(s.next_head(Some(Direction::Up)), (7, 4));
    assert_eq!(s.next_head(Some(Direction::Down)), (7, 6));
    assert_eq!(s.next_head(Some(Direction::Left)), (6, 5));
    assert_eq!(s.next_head(Some(Direction::Right)), (8, 5));
}

#[test]
fn next_head_uses_current_heading_without_override() {
    let s = Snake::new(5, 5); // heading Right, head at (7, 5)
    assert_eq!(s.next_head(None), (8, 5));
}

#[test]
fn move_forward_pushes_head_and_pops_tail() {
    let mut s = Snake::new(2, 2);
    s.move_forward(None);
    assert_eq!(s.body, vec![
        Block { x: 5, y: 2 },
        Block { x: 4, y: 2 },
        Block { x: 3, y: 2 },
    ]);
    assert_eq!(s.tail, Some(Block { x: 2, y: 2 }));
    assert_eq!(s.head_direction(), Direction::Right);
}

#[test]
fn move_forward_adopts_override_heading() {
    let mut s = Snake::new(2, 2);
    s.move_forward(Some(Direction::Down));
    assert_eq!(s.head_direction(), Direction::Down);
    assert_eq!(s.head_position(), (4, 3));
    assert_eq!(s.body.len(), 3);
}

#[test]
fn restore_tail_grows_by_one() {
    let mut s = Snake::new(2, 2);
    s.move_forward(None);
    s.restore_tail();
    assert_eq!(s.body, vec![
        Block { x: 5, y: 2 },
        Block { x: 4, y: 2 },
        Block { x: 3, y: 2 },
        Block { x: 2, y: 2 },
    ]);
}

#[test]
fn overlap_tail_excludes_exactly_the_tail_cell() {
    // Body cells (5,5), (4,5), (3,5): the tail (3,5) is not a hazard,
    // every other body cell is.
    let s = Snake::new(3, 5);
    assert_eq!(s.body, vec![
        Block { x: 5, y: 5 },
        Block { x: 4, y: 5 },
        Block { x: 3, y: 5 },
    ]);
    assert!(!s.overlap_tail((3, 5)));
    assert!(s.overlap_tail((4, 5)));
    assert!(s.overlap_tail((5, 5)));
    assert!(!s.overlap_tail((6, 5)));
}

#[test]
fn to_coord_u32_scales_by_block_size() {
    assert_eq!(to_coord_u32(0), 0);
    assert_eq!(to_coord_u32(1), 25);
    assert_eq!(to_coord_u32(4), 100);
    assert_eq!(to_coord_u32(30), 750);
}

#[test]
fn to_coord_u32_saturates_at_the_bounds() {
    assert_eq!(to_coord_u32(-1), 0);
    assert_eq!(to_coord_u32(i32::MIN), 0);
    assert_eq!(to_coord_u32(171798691), 4294967275); // largest exact value
    assert_eq!(to_coord_u32(171798692), u32::MAX);
    assert_eq!(to_coord_u32(i32::MAX), u32::MAX);
}
