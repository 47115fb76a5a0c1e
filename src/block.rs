use vstd::prelude::*;

verus! {

/// Side of every block, in pixels; positions on the grid are multiples of it.
pub const BLOCK_SIZE: i64 = 50;

/// A heading of the snake.
#[derive(Clone, Copy, Debug, PartialEq, Eq, Structural)]
pub enum Direction {
    Up,
    Down,
    Left,
    Right,
}

/// An axis-aligned square: top-left corner `(x, y)`, width `w`, height `h`.
#[derive(Clone, Copy, Debug, PartialEq, Eq, Structural)]
pub struct Block {
    pub x: i64,
    pub y: i64,
    pub w: i64,
    pub h: i64,
}

/// Horizontal step, in pixels, of one move towards `d`.
pub open spec fn step_x(d: Direction) -> int {
    match d {
        Direction::Left => -BLOCK_SIZE,
        Direction::Right => BLOCK_SIZE as int,
        _ => 0,
    }
}

/// Vertical step, in pixels, of one move towards `d` (y grows downwards).
pub open spec fn step_y(d: Direction) -> int {
    match d {
        Direction::Up => -BLOCK_SIZE,
        Direction::Down => BLOCK_SIZE as int,
        _ => 0,
    }
}

/// Whether the cell one step from `b` towards `d` has coordinates that fit in `i64`.
pub open spec fn step_fits(b: Block, d: Direction) -> bool {
    i64::MIN <= b.x + step_x(d) <= i64::MAX && i64::MIN <= b.y + step_y(d) <= i64::MAX
}

/// `b` moved to the cell one step from `from` towards `d`, keeping its size.
pub open spec fn placed_after(b: Block, from: Block, d: Direction) -> Block {
    Block { x: (from.x + step_x(d)) as i64, y: (from.y + step_y(d)) as i64, ..b }
}

impl Block {
    pub fn new(x: i64, y: i64, w: i64, h: i64) -> (r: Self)
        ensures
            r == (Block { x, y, w, h }),
    {
        Self { x, y, w, h }
    }

    /// Whether the cell one step from this block towards `d` can be represented.
    pub fn can_step(&self, d: Direction) -> (r: bool)
        ensures
            r == step_fits(*self, d),
    {
        match d {
            Direction::Up => self.y >= i64::MIN + BLOCK_SIZE,
            Direction::Down => self.y <= i64::MAX - BLOCK_SIZE,
            Direction::Left => self.x >= i64::MIN + BLOCK_SIZE,
            Direction::Right => self.x <= i64::MAX - BLOCK_SIZE,
        }
    }

    /// Moves this block to the cell one step from `from` towards `d`.
    pub fn place_after(&mut self, from: &Block, d: Direction)
        requires
            step_fits(*from, d),
        ensures
            *final(self) == placed_after(*old(self), *from, d),
    {
        match d {
            Direction::Up => {
                self.x = from.x;
                self.y = from.y - BLOCK_SIZE;
            },
            Direction::Down => {
                self.x = from.x;
                self.y = from.y + BLOCK_SIZE;
            },
            Direction::Left => {
                self.y = from.y;
                self.x = from.x - BLOCK_SIZE;
            },
            Direction::Right => {
                self.y = from.y;
                self.x = from.x + BLOCK_SIZE;
            },
        }
    }
}

} // verus!
