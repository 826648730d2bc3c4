//! The snake itself: an ordered body of grid cells (front = head, back =
//! tail), a heading, and the record of the most recently vacated tail cell,
//! together with the movement and growth mechanics.

use vstd::prelude::*;

verus! {

/// A movement heading. Each variant has exactly one opposite
/// (`Up`/`Down`, `Left`/`Right`); the game uses that to reject 180-degree
/// turns within a single tick.
#[derive(Copy, Clone, PartialEq, Eq, Structural, Debug)]
pub enum Direction {
    Up,
    Down,
    Left,
    Right,
}

impl Direction {
    /// The heading pointing the other way.
    pub open spec fn opposite_spec(self) -> Direction {
        match self {
            Direction::Up => Direction::Down,
            Direction::Down => Direction::Up,
            Direction::Left => Direction::Right,
            Direction::Right => Direction::Left,
        }
    }

    pub fn opposite(&self) -> (r: Direction)
        ensures
            r == self.opposite_spec(),
    {
        match *self {
            Direction::Up => Direction::Down,
            Direction::Down => Direction::Up,
            Direction::Left => Direction::Right,
            Direction::Right => Direction::Left,
        }
    }
}

/// One grid cell, identified by its integer coordinates.
#[derive(Copy, Clone, PartialEq, Eq, Structural, Debug)]
pub struct Block {
    pub x: i32,
    pub y: i32,
}

/// The cell one unit from `(x, y)` along heading `d`: up decreases `y`,
/// down increases `y`, left decreases `x`, right increases `x`.
pub open spec fn next_pos(x: int, y: int, d: Direction) -> (int, int) {
    match d {
        Direction::Up => (x, y - 1),
        Direction::Down => (x, y + 1),
        Direction::Left => (x - 1, y),
        Direction::Right => (x + 1, y),
    }
}

/// Law: a single step moves exactly one unit along one axis, never
/// diagonally: either `x` is kept and `y` changes by one, or `y` is kept
/// and `x` changes by one.
pub proof fn lemma_next_pos_unit_step(x: int, y: int, d: Direction)
    ensures
        ({
            let np = next_pos(x, y, d);
            (np.0 == x && (np.1 == y - 1 || np.1 == y + 1)) || (np.1 == y && (np.0 == x - 1
                || np.0 == x + 1))
        }),
{
}

/// Does cell `c` sit at the coordinates `(x, y)`?
pub open spec fn cell_is(c: Block, x: int, y: int) -> bool {
    c.x == x && c.y == y
}

pub struct Snake {
    pub direction: Direction,
    pub body: Vec<Block>,
    pub tail: Option<Block>,
}

impl Snake {
    /// The body is never empty; its front element is the head.
    pub open spec fn wf(self) -> bool {
        self.body@.len() >= 1
    }

    /// The heading a move would take: the override if one is given, the
    /// current heading otherwise.
    pub open spec fn effective_direction(self, direction: Option<Direction>) -> Direction {
        match direction {
            Some(d) => d,
            None => self.direction,
        }
    }

    /// Where the head would move under `direction`.
    pub open spec fn next_head_spec(self, direction: Option<Direction>) -> (int, int) {
        next_pos(
            self.body@[0].x as int,
            self.body@[0].y as int,
            self.effective_direction(direction),
        )
    }

    /// The next head cell stays representable as a pair of `i32`.
    pub open spec fn step_fits(self, direction: Option<Direction>) -> bool {
        let np = self.next_head_spec(direction);
        i32::MIN <= np.0 <= i32::MAX && i32::MIN <= np.1 <= i32::MAX
    }

    /// Does `(x, y)` collide with the body? Every body cell counts except
    /// the last one: the tail vacates its slot on the very move that could
    /// bring the head there, so moving onto the outgoing tail cell is legal.
    pub open spec fn hazard_at(self, x: int, y: int) -> bool {
        exists|i: int|
            0 <= i < self.body@.len() - 1 && #[trigger] cell_is(self.body@[i], x, y)
    }

    /// A new snake: three cells laid out horizontally with the head at
    /// `(x + 2, y)`, heading right, no vacated tail cell yet.
    pub fn new(x: i32, y: i32) -> (s: Snake)
        requires
            x + 2 <= i32::MAX,
        ensures
            s.wf(),
            s.direction == Direction::Right,
            s.body@.len() == 3,
            s.body@[0] == (Block { x: (x + 2) as i32, y }),
            s.body@[1] == (Block { x: (x + 1) as i32, y }),
            s.body@[2] == (Block { x, y }),
            s.tail is None,
    {
        let mut body: Vec<Block> = Vec::new();
        body.push(Block { x: x + 2, y });
        body.push(Block { x: x + 1, y });
        body.push(Block { x, y });
        Snake { direction: Direction::Right, body, tail: None }
    }

    /// The head cell, as a coordinate pair.
    pub fn head_position(&self) -> (p: (i32, i32))
        requires
            self.wf(),
        ensures
            p.0 == self.body@[0].x,
            p.1 == self.body@[0].y,
    {
        let head_block = &self.body[0];
        (head_block.x, head_block.y)
    }

    /// The current heading.
    pub fn head_direction(&self) -> (d: Direction)
        ensures
            d == self.direction,
    {
        self.direction
    }

    /// Where the head would move under `direction`, without mutating
    /// anything.
    pub fn next_head(&self, direction: Option<Direction>) -> (p: (i32, i32))
        requires
            self.wf(),
            self.step_fits(direction),
        ensures
            (p.0 as int, p.1 as int) == self.next_head_spec(direction),
    {
        let (head_x, head_y) = self.head_position();

        let moving_direction = match direction {
            Some(d) => d,
            None => self.direction,
        };

        match moving_direction {
            Direction::Up => (head_x, head_y - 1),
            Direction::Down => (head_x, head_y + 1),
            Direction::Left => (head_x - 1, head_y),
            Direction::Right => (head_x + 1, head_y),
        }
    }

    /// The body after one move under `direction`: the new head cell in
    /// front, the old tail cell gone.
    pub open spec fn moved_body(self, direction: Option<Direction>) -> Seq<Block> {
        let np = self.next_head_spec(direction);
        seq![Block { x: np.0 as i32, y: np.1 as i32 }] + self.body@.drop_last()
    }

    /// Move one step: adopt the override heading if one is given, push the
    /// next head cell to the front, pop the tail cell off the back and
    /// remember it so that `restore_tail` can undo the pop.
    pub fn move_forward(&mut self, direction: Option<Direction>)
        requires
            old(self).wf(),
            old(self).step_fits(direction),
        ensures
            final(self).wf(),
            final(self).direction == old(self).effective_direction(direction),
            final(self).body@ == old(self).moved_body(direction),
            final(self).body@.len() == old(self).body@.len(),
            final(self).tail == Some(old(self).body@.last()),
    {
        match direction {
            Some(d) => self.direction = d,
            None => (),
        }

        let (last_x, last_y) = self.head_position();
        let new_block = match self.direction {
            Direction::Up => Block { x: last_x, y: last_y - 1 },
            Direction::Down => Block { x: last_x, y: last_y + 1 },
            Direction::Left => Block { x: last_x - 1, y: last_y },
            Direction::Right => Block { x: last_x + 1, y: last_y },
        };

        self.body.insert(0, new_block);
        let removed_block = self.body.pop().unwrap();
        self.tail = Some(removed_block);

        proof {
            assert(self.body@ =~= old(self).moved_body(direction));
        }
    }

    /// Re-append the most recently vacated tail cell, growing the body by
    /// one. Meaningful only right after a `move_forward` that is being
    /// credited as having eaten food.
    pub fn restore_tail(&mut self)
        requires
            old(self).tail is Some,
        ensures
            final(self).direction == old(self).direction,
            final(self).body@ == old(self).body@.push(old(self).tail.unwrap()),
            final(self).tail == old(self).tail,
    {
        let block = self.tail.unwrap();
        self.body.push(block);
    }

    /// Does `coords` collide with the body? True exactly when some body
    /// cell other than the last one sits there (see `hazard_at`).
    pub fn overlap_tail(&self, coords: (i32, i32)) -> (r: bool)
        requires
            self.wf(),
        ensures
            r == self.hazard_at(coords.0 as int, coords.1 as int),
    {
        let n = self.body.len() - 1;
        let mut i: usize = 0;
        while i < n
            invariant
                n == self.body@.len() - 1,
                i <= n,
                forall|j: int|
                    0 <= j < i ==> !(#[trigger] cell_is(
                        self.body@[j],
                        coords.0 as int,
                        coords.1 as int,
                    )),
            decreases n - i,
        {
            let block = &self.body[i];
            if coords.0 == block.x && coords.1 == block.y {
                proof {
                    assert(cell_is(self.body@[i as int], coords.0 as int, coords.1 as int));
                }
                return true;
            }
            i += 1;
        }
        false
    }
}

} // verus!
