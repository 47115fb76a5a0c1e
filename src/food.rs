use vstd::prelude::*;

use crate::block::{Block, BLOCK_SIZE};
use crate::snake::Snake;

verus! {

/// Food is a single block on the grid.
pub type Food = Block;

/// Number of grid cells along each axis on which food may spawn.
pub const GRID_CELLS: u64 = 13;

/// Relies on rand::Rng::gen_range drawn from rand::thread_rng: a value in
/// `[0, bound)`; gen_range panics on an empty range, hence `bound > 0`.
#[verifier::external_body]
fn random_below(bound: u64) -> (r: u64)
    requires
        bound > 0,
    ensures
        r < bound,
{
    rand::Rng::gen_range(&mut rand::thread_rng(), 0, bound)
}

/// Whether `b` is a block of standard size whose corner lies on a grid cell
/// `(k, j)`, `0 <= k, j < GRID_CELLS`: both coordinates are multiples of
/// `BLOCK_SIZE` in `[0, GRID_CELLS * BLOCK_SIZE)`.
pub open spec fn on_spawn_grid(b: Block) -> bool {
    &&& b.w == BLOCK_SIZE
    &&& b.h == BLOCK_SIZE
    &&& b.x % BLOCK_SIZE == 0
    &&& b.y % BLOCK_SIZE == 0
    &&& 0 <= b.x < GRID_CELLS * BLOCK_SIZE
    &&& 0 <= b.y < GRID_CELLS * BLOCK_SIZE
}

impl Block {
    /// The food block on grid cell `(col, row)`.
    pub fn at_cell(col: u64, row: u64) -> (r: Food)
        requires
            col < GRID_CELLS,
            row < GRID_CELLS,
        ensures
            r.x == BLOCK_SIZE * col,
            r.y == BLOCK_SIZE * row,
            r.w == BLOCK_SIZE,
            r.h == BLOCK_SIZE,
            on_spawn_grid(r),
    {
        let r = Block::new(BLOCK_SIZE * (col as i64), BLOCK_SIZE * (row as i64), BLOCK_SIZE, BLOCK_SIZE);
        assert(r.x % BLOCK_SIZE == 0 && r.y % BLOCK_SIZE == 0) by (nonlinear_arith)
            requires
                r.x == BLOCK_SIZE * col,
                r.y == BLOCK_SIZE * row,
                BLOCK_SIZE == 50,
        ;
        r
    }

    /// New food on a random grid cell: each coordinate is a multiple of
    /// `BLOCK_SIZE` below `GRID_CELLS * BLOCK_SIZE`.
    pub fn produce() -> (r: Food)
        ensures
            on_spawn_grid(r),
    {
        let col = random_below(GRID_CELLS);
        let row = random_below(GRID_CELLS);
        Block::at_cell(col, row)
    }

    /// Whether this food lies where the snake's head is. Positions are whole
    /// pixels, so the match is exact.
    pub fn can_be_eaten(&self, snake: &Snake) -> (r: bool)
        requires
            snake.wf(),
        ensures
            r == (self.x == snake@.head().x && self.y == snake@.head().y),
            (self.x - snake@.head().x > BLOCK_SIZE || snake@.head().x - self.x > BLOCK_SIZE
                || self.y - snake@.head().y > BLOCK_SIZE || snake@.head().y - self.y > BLOCK_SIZE)
                ==> !r,
    {
        let head = snake.head();
        self.x == head.x && self.y == head.y
    }
}

} // verus!
