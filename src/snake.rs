use std::collections::VecDeque;
use vstd::prelude::*;

use crate::block::{placed_after, step_fits, step_x, step_y, Block, Direction, BLOCK_SIZE};

verus! {

/// Milliseconds in a second.
pub const MILLIS_PER_SEC: u64 = 1000;

/// Relies on std::time::SystemTime::elapsed, measured from the Unix epoch:
/// the clock in whole milliseconds (zero for a clock set before the epoch).
/// Nothing is promised of the value: it is the machine's clock.
#[verifier::external_body]
fn clock_millis() -> (r: u64) {
    match std::time::UNIX_EPOCH.elapsed() {
        Ok(d) => d.as_millis() as u64,
        Err(_) => 0,
    }
}

/// What a snake is: its segments from head to tail, its heading, and the
/// time of its last move in milliseconds.
pub struct SnakeView {
    pub body: Seq<Block>,
    pub direction: Direction,
    pub last_move_ms: u64,
}

impl SnakeView {
    pub open spec fn head(self) -> Block {
        self.body[0]
    }

    pub open spec fn tail(self) -> Block {
        self.body.last()
    }

    /// Whether the next head position, one step from the head, is representable.
    pub open spec fn can_advance(self) -> bool {
        self.body.len() > 0 && step_fits(self.head(), self.direction)
    }

    /// The same snake with heading `d`.
    pub open spec fn turned(self, d: Direction) -> SnakeView {
        SnakeView { direction: d, ..self }
    }

    /// The snake after one move: the tail is taken off and put in front of
    /// the head, one step towards the heading.
    pub open spec fn moved(self) -> SnakeView {
        SnakeView {
            body: seq![placed_after(self.tail(), self.head(), self.direction)].add(
                self.body.drop_last(),
            ),
            ..self
        }
    }

    /// The snake after eating `food`: the food is put in front of the head,
    /// one step towards the heading, and every segment stays.
    pub open spec fn grown(self, food: Block) -> SnakeView {
        SnakeView {
            body: seq![placed_after(food, self.head(), self.direction)].add(self.body),
            ..self
        }
    }

    /// Whether at least `secs` whole seconds lie between the last move and `now_ms`.
    pub open spec fn secs_passed(self, now_ms: u64, secs: u64) -> bool {
        now_ms >= self.last_move_ms && now_ms - self.last_move_ms >= secs * MILLIS_PER_SEC
    }
}

/// Setting the same heading twice is setting it once: the snake that the
/// next move starts from is the same either way.
pub proof fn lemma_ch_direction_idempotent(s: SnakeView, d: Direction)
    ensures
        s.turned(d).turned(d) == s.turned(d),
        s.turned(d).turned(d).moved() == s.turned(d).moved(),
{
}

/// A snake on the grid: an ordered body (head first), a heading, and the
/// time of its last move.
pub struct Snake {
    body: VecDeque<Block>,
    direction: Direction,
    last_move_time: u64,
}

impl View for Snake {
    type V = SnakeView;

    closed spec fn view(&self) -> SnakeView {
        SnakeView { body: self.body@, direction: self.direction, last_move_ms: self.last_move_time }
    }
}

/// The body of a new snake, head first: three segments along the top row.
pub open spec fn initial_body() -> Seq<Block> {
    seq![
        Block { x: (2 * BLOCK_SIZE) as i64, y: 0, w: BLOCK_SIZE, h: BLOCK_SIZE },
        Block { x: BLOCK_SIZE, y: 0, w: BLOCK_SIZE, h: BLOCK_SIZE },
        Block { x: 0, y: 0, w: BLOCK_SIZE, h: BLOCK_SIZE },
    ]
}

impl Snake {
    /// A snake is well formed when its body is not empty.
    pub open spec fn wf(&self) -> bool {
        self@.body.len() > 0
    }

    /// A snake of three segments at x = 0, 50, 100 on the top row, the last
    /// one its head, heading right, last moved now.
    pub fn new() -> (r: Self)
        ensures
            r@.body == initial_body(),
            r@.direction == Direction::Right,
            r.wf(),
    {
        Self::new_at(clock_millis())
    }

    /// As `new`, with the time of creation given in milliseconds.
    pub fn new_at(now_ms: u64) -> (r: Self)
        ensures
            r@ == (SnakeView { body: initial_body(), direction: Direction::Right, last_move_ms: now_ms }),
            r.wf(),
    {
        let mut body: VecDeque<Block> = VecDeque::new();
        body.push_front(Block::new(0, 0, BLOCK_SIZE, BLOCK_SIZE));
        body.push_front(Block::new(BLOCK_SIZE, 0, BLOCK_SIZE, BLOCK_SIZE));
        body.push_front(Block::new(BLOCK_SIZE * 2, 0, BLOCK_SIZE, BLOCK_SIZE));
        let r = Snake { body, direction: Direction::Right, last_move_time: now_ms };
        assert(r@.body =~= initial_body());
        r
    }

    /// Sets the heading, whatever it was.
    pub fn ch_direction(&mut self, direction: Direction)
        ensures
            final(self)@ == old(self)@.turned(direction),
    {
        self.direction = direction;
    }

    /// Whether the next move keeps the coordinates within `i64`.
    pub fn can_advance(&self) -> (r: bool)
        requires
            self.wf(),
        ensures
            r == self@.can_advance(),
    {
        self.head().can_step(self.direction)
    }

    /// Moves the snake one cell towards its heading, and stamps the move
    /// with the clock.
    pub fn do_move(&mut self)
        requires
            old(self).wf(),
            old(self)@.can_advance(),
        ensures
            final(self)@.body == old(self)@.moved().body,
            final(self)@.direction == old(self)@.direction,
            final(self).wf(),
            final(self)@.body.len() == old(self)@.body.len(),
            final(self)@.body.subrange(1, final(self)@.body.len() as int)
                == old(self)@.body.drop_last(),
            final(self)@.head().x == old(self)@.head().x + step_x(old(self)@.direction),
            final(self)@.head().y == old(self)@.head().y + step_y(old(self)@.direction),
    {
        let now = clock_millis();
        self.move_at(now);
    }

    /// Moves the snake one cell towards its heading: the tail segment is taken
    /// off and put in front of the head. The move is stamped with `now_ms`.
    pub fn move_at(&mut self, now_ms: u64)
        requires
            old(self).wf(),
            old(self)@.can_advance(),
        ensures
            final(self)@ == (SnakeView { last_move_ms: now_ms, ..old(self)@.moved() }),
            final(self).wf(),
            final(self)@.body.len() == old(self)@.body.len(),
            final(self)@.body.subrange(1, final(self)@.body.len() as int)
                == old(self)@.body.drop_last(),
            final(self)@.head().x == old(self)@.head().x + step_x(old(self)@.direction),
            final(self)@.head().y == old(self)@.head().y + step_y(old(self)@.direction),
    {
        let head = self.head();
        let tail = self.body.pop_back();
        match tail {
            Some(mut tail) => {
                tail.place_after(&head, self.direction);
                self.body.push_front(tail);
            },
            None => {},
        }
        self.last_move_time = now_ms;
        assert(self@.body =~= old(self)@.moved().body);
        assert(self@.body.subrange(1, self@.body.len() as int) =~= old(self)@.body.drop_last());
    }

    /// Whether at least `secs` whole seconds have passed since the last move,
    /// by the clock.
    pub fn pass_secs(&self, secs: u64) -> (r: bool)
        ensures
            exists|now_ms: u64| r == self@.secs_passed(now_ms, secs),
    {
        let now = clock_millis();
        self.pass_secs_at(now, secs)
    }

    /// Whether at least `secs` whole seconds lie between the last move and
    /// `now_ms`; never when `now_ms` is earlier than the last move.
    pub fn pass_secs_at(&self, now_ms: u64, secs: u64) -> (r: bool)
        ensures
            r == self@.secs_passed(now_ms, secs),
    {
        if now_ms < self.last_move_time {
            false
        } else {
            let elapsed: u64 = now_ms - self.last_move_time;
            let r = elapsed / MILLIS_PER_SEC >= secs;
            assert(r == (elapsed >= secs * MILLIS_PER_SEC)) by (nonlinear_arith)
                requires
                    r == (elapsed / MILLIS_PER_SEC >= secs),
                    MILLIS_PER_SEC == 1000,
            ;
            r
        }
    }

    /// Grows the snake by `block`: it is put in front of the head, one cell
    /// towards the heading, and every other segment stays where it was.
    pub fn eat(&mut self, block: Block)
        requires
            old(self).wf(),
            old(self)@.can_advance(),
        ensures
            final(self)@ == old(self)@.grown(block),
            final(self).wf(),
            final(self)@.body.len() == old(self)@.body.len() + 1,
            final(self)@.body.subrange(1, final(self)@.body.len() as int) == old(self)@.body,
            final(self)@.head().x == old(self)@.head().x + step_x(old(self)@.direction),
            final(self)@.head().y == old(self)@.head().y + step_y(old(self)@.direction),
    {
        let head = self.head();
        let mut block = block;
        block.place_after(&head, self.direction);
        self.body.push_front(block);
        assert(self@.body =~= old(self)@.grown(block).body) by {
            assert(self@.body =~= seq![placed_after(block, old(self)@.head(), old(self)@.direction)].add(old(self)@.body));
        }
        assert(self@.body.subrange(1, self@.body.len() as int) =~= old(self)@.body);
    }

    /// The head segment.
    pub fn head(&self) -> (r: Block)
        requires
            self.wf(),
        ensures
            r == self@.head(),
    {
        self.body[0]
    }

    /// The current heading.
    pub fn direction(&self) -> (r: Direction)
        ensures
            r == self@.direction,
    {
        self.direction
    }

    /// Number of segments.
    pub fn len(&self) -> (r: usize)
        ensures
            r == self@.body.len(),
    {
        self.body.len()
    }

    /// The segments, head first.
    pub fn segments(&self) -> (r: Vec<Block>)
        ensures
            r@ == self@.body,
    {
        let mut r: Vec<Block> = Vec::new();
        let n = self.body.len();
        let mut i: usize = 0;
        while i < n
            invariant
                n == self@.body.len(),
                i <= n,
                r@ == self@.body.subrange(0, i as int),
            decreases n - i,
        {
            r.push(self.body[i]);
            i = i + 1;
            assert(r@ =~= self@.body.subrange(0, i as int));
        }
        assert(r@ =~= self@.body);
        r
    }
}

} // verus!
