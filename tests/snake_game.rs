use snake::block::{Block, Direction, BLOCK_SIZE};
use snake::food::{Food, GRID_CELLS};
use snake::snake::Snake;

fn positions(s: &Snake) -> Vec<(i64, i64)> {
    s.segments().iter().map(|b| (b.x, b.y)).collect()
}

#[test]
fn new_snake_has_three_segments_heading_right() {
    let s = Snake::new();
    assert_eq!(positions(&s), vec![(100, 0), (50, 0), (0, 0)]);
    assert_eq!(s.direction(), Direction::Right);
    assert_eq!(s.len(), 3);
}

#[test]
fn one_move_right_recycles_tail_as_head() {
    let mut s = Snake::new_at(0);
    s.move_at(10);
    assert_eq!(positions(&s), vec![(150, 0), (100, 0), (50, 0)]);
    assert_eq!(s.len(), 3);
}

#[test]
fn do_move_uses_the_heading() {
    let mut s = Snake::new();
    assert!(s.can_advance());
    s.do_move();
    assert_eq!(positions(&s), vec![(150, 0), (100, 0), (50, 0)]);
}

#[test]
fn turning_up_decreases_y_only() {
    let mut s = Snake::new_at(0);
    s.move_at(1);
    let before = s.head();
    s.ch_direction(Direction::Up);
    s.move_at(2);
    let after = s.head();
    assert_eq!(after.x, before.x);
    assert_eq!(after.y, before.y - BLOCK_SIZE);
    assert_eq!(positions(&s), vec![(150, -50), (150, 0), (100, 0)]);
}

#[test]
fn moves_down_and_left() {
    let mut s = Snake::new_at(0);
    s.ch_direction(Direction::Down);
    s.move_at(1);
    assert_eq!(positions(&s), vec![(100, 50), (100, 0), (50, 0)]);
    s.ch_direction(Direction::Left);
    s.move_at(2);
    assert_eq!(positions(&s), vec![(50, 50), (100, 50), (100, 0)]);
}

#[test]
fn eating_grows_by_one_in_front() {
    let mut s = Snake::new_at(0);
    s.move_at(1);
    assert_eq!(s.head().x, 150);
    let food: Food = Block::at_cell(3, 0);
    assert_eq!((food.x, food.y), (150, 0));
    assert!(food.can_be_eaten(&s));
    s.eat(food);
    assert_eq!(s.len(), 4);
    assert_eq!(positions(&s), vec![(200, 0), (150, 0), (100, 0), (50, 0)]);
    assert_eq!(s.head().w, BLOCK_SIZE);
    let fresh = Block::at_cell(5, 7);
    assert_ne!((fresh.x, fresh.y), (150, 0));
    assert!(!fresh.can_be_eaten(&s));
}

#[test]
fn same_heading_twice_is_once() {
    let mut a = Snake::new_at(0);
    let mut b = Snake::new_at(0);
    a.ch_direction(Direction::Down);
    b.ch_direction(Direction::Down);
    b.ch_direction(Direction::Down);
    a.move_at(5);
    b.move_at(5);
    assert_eq!(positions(&a), positions(&b));
    assert_eq!(a.direction(), b.direction());
}

#[test]
fn food_far_from_head_is_not_eaten() {
    let s = Snake::new_at(0);
    assert!(Block::new(100, 0, BLOCK_SIZE, BLOCK_SIZE).can_be_eaten(&s));
    assert!(!Block::new(0, 0, BLOCK_SIZE, BLOCK_SIZE).can_be_eaten(&s));
    assert!(!Block::new(100, 200, BLOCK_SIZE, BLOCK_SIZE).can_be_eaten(&s));
    assert!(!Block::new(101, 0, BLOCK_SIZE, BLOCK_SIZE).can_be_eaten(&s));
}

#[test]
fn produced_food_lies_on_the_grid() {
    for _ in 0..200 {
        let f = Block::produce();
        assert_eq!(f.x % BLOCK_SIZE, 0);
        assert_eq!(f.y % BLOCK_SIZE, 0);
        assert!(f.x >= 0 && f.x < GRID_CELLS as i64 * BLOCK_SIZE);
        assert!(f.y >= 0 && f.y < GRID_CELLS as i64 * BLOCK_SIZE);
        assert_eq!((f.w, f.h), (BLOCK_SIZE, BLOCK_SIZE));
    }
}

#[test]
fn cell_corners() {
    let f = Block::at_cell(12, 12);
    assert_eq!((f.x, f.y), (600, 600));
    let g = Block::at_cell(0, 0);
    assert_eq!((g.x, g.y), (0, 0));
}

#[test]
fn seconds_since_last_move() {
    let s = Snake::new_at(5_000);
    assert!(s.pass_secs_at(6_000, 1));
    assert!(!s.pass_secs_at(5_999, 1));
    assert!(s.pass_secs_at(5_000, 0));
    assert!(!s.pass_secs_at(4_000, 0));
    assert!(s.pass_secs_at(8_500, 3));
    assert!(!s.pass_secs_at(8_500, 4));
}

#[test]
fn clock_drives_pass_secs() {
    let s = Snake::new();
    assert!(s.pass_secs(0));
    assert!(!s.pass_secs(1_000_000));
}

#[test]
fn edge_of_coordinates_stops_advance() {
    let mut s = Snake::new_at(0);
    s.ch_direction(Direction::Up);
    assert!(s.can_advance());
    let b = Block::new(0, i64::MIN + 10, BLOCK_SIZE, BLOCK_SIZE);
    assert!(!b.can_step(Direction::Up));
    assert!(b.can_step(Direction::Down));
    let mut c = Block::new(0, 0, 1, 1);
    c.place_after(&b, Direction::Right);
    assert_eq!((c.x, c.y, c.w, c.h), (50, i64::MIN + 10, 1, 1));
}
