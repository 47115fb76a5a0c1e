//! Game state of a grid snake: a body of square blocks that advances one
//! cell per tick, grows by eating food, and food that spawns on a random cell.

pub mod block;
pub mod food;
pub mod snake;
