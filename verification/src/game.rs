//! The game state: a snake on a bounded board, food placement, collision
//! rules, game-over and timed restart. Time is counted in milliseconds; the
//! snake moves once the accumulator passes `MOVING_PERIOD_MS`, and a finished
//! game restarts once it passes `RESTART_TIME_MS`.

use vstd::prelude::*;
use rand::Rng;
use crate::snake::{Block, Direction, Snake, next_pos};

verus! {

/// Milliseconds of accumulated time after which the snake takes a step.
pub const MOVING_PERIOD_MS: u64 = 100;

/// Milliseconds of accumulated time after which a finished game restarts.
pub const RESTART_TIME_MS: u64 = 1000;

/// How many random cells food placement samples before giving up for the
/// tick. The interior is far larger than the snake in practical play, so
/// the bound exists only to rule out an unbounded search when the board is
/// almost full; placement is simply retried on the next tick.
pub const MAX_FOOD_TRIES: u32 = 1000;

/// A directional key event, already stripped of everything the simulation
/// does not care about: any key that is not an arrow maps to `Other`, which
/// keeps the current heading but still forces the usual step.
#[derive(Copy, Clone, PartialEq, Eq, Structural, Debug)]
pub enum Key {
    Up,
    Down,
    Left,
    Right,
    Other,
}

/// The heading a key event asks for: arrows name their direction, anything
/// else keeps the current heading.
pub open spec fn key_direction(key: Key, current: Direction) -> Direction {
    match key {
        Key::Up => Direction::Up,
        Key::Down => Direction::Down,
        Key::Left => Direction::Left,
        Key::Right => Direction::Right,
        Key::Other => current,
    }
}

/// Is `(x, y)` strictly inside a `w` by `h` board? The outermost ring of
/// cells is the wall and is not traversable.
pub open spec fn in_interior(x: int, y: int, w: int, h: int) -> bool {
    0 < x < w - 1 && 0 < y < h - 1
}

pub struct Game {
    pub snake: Snake,
    pub food_exists: bool,
    pub food_coords: (i32, i32),
    pub dimensions: (i32, i32),
    pub game_over: bool,
    pub waiting_time: u64,
}

/// The body of a freshly constructed snake: head at (4, 2), laid out
/// leftwards to (2, 2).
pub open spec fn initial_body() -> Seq<Block> {
    seq![Block { x: 4, y: 2 }, Block { x: 3, y: 2 }, Block { x: 2, y: 2 }]
}

impl Game {
    /// Is `c` strictly inside this game's board?
    pub open spec fn cell_ok(self, c: Block) -> bool {
        in_interior(c.x as int, c.y as int, self.dimensions.0 as int, self.dimensions.1 as int)
    }

    /// The game's invariant: the board is large enough to hold the fixed
    /// starting layout, every body cell and the food (when present) lie
    /// strictly inside the board, and so does the remembered tail cell.
    pub open spec fn wf(self) -> bool {
        &&& self.snake.wf()
        &&& self.dimensions.0 >= 8
        &&& self.dimensions.1 >= 6
        &&& forall|i: int|
            0 <= i < self.snake.body@.len() ==> self.cell_ok(#[trigger] self.snake.body@[i])
        &&& self.food_exists ==> self.cell_ok(Block { x: self.food_coords.0, y: self.food_coords.1 })
        &&& self.snake.tail matches Some(t) ==> self.cell_ok(t)
    }

    /// The construction-time starting state on board `dims`: the fixed
    /// snake, food present at (6, 4), not over, accumulator at zero.
    pub open spec fn is_initial(self, dims: (i32, i32)) -> bool {
        &&& self.dimensions == dims
        &&& self.snake.direction == Direction::Right
        &&& self.snake.body@ == initial_body()
        &&& self.snake.tail is None
        &&& self.food_exists == true
        &&& self.food_coords.0 == 6 && self.food_coords.1 == 4
        &&& self.game_over == false
        &&& self.waiting_time == 0
    }
}

/// What one step does, as a relation between the state before and after.
/// If the would-be next head collides with the body or with the wall, the
/// game is over and the snake is left exactly where it was; otherwise the
/// snake moves, eating the food if the new head lands on it, which restores
/// the popped tail cell and clears the food. Either way the accumulator is
/// reset.
pub open spec fn step_spec(pre: Game, post: Game, direction: Option<Direction>) -> bool {
    let np = pre.snake.next_head_spec(direction);
    let dead = pre.snake.hazard_at(np.0, np.1) || !in_interior(
        np.0,
        np.1,
        pre.dimensions.0 as int,
        pre.dimensions.1 as int,
    );
    let ate = pre.food_exists && pre.food_coords.0 == np.0 && pre.food_coords.1 == np.1;
    &&& post.dimensions == pre.dimensions
    &&& post.waiting_time == 0
    &&& if dead {
        &&& post.snake == pre.snake
        &&& post.food_exists == pre.food_exists
        &&& post.food_coords == pre.food_coords
        &&& post.game_over == true
    } else {
        &&& post.snake.direction == pre.snake.effective_direction(direction)
        &&& post.snake.tail == Some(pre.snake.body@.last())
        &&& post.game_over == pre.game_over
        &&& post.food_coords == pre.food_coords
        &&& if ate {
            &&& post.snake.body@ == seq![Block { x: np.0 as i32, y: np.1 as i32 }]
                + pre.snake.body@
            &&& post.food_exists == false
        } else {
            &&& post.snake.body@ == pre.snake.moved_body(direction)
            &&& post.food_exists == pre.food_exists
        }
    }
}

/// What food placement may produce: `fe` and `fc` are the food flag and
/// coordinates afterwards. Food already present is left alone; otherwise
/// any spawned food lies strictly inside the board and off the snake's
/// hazard cells, and a failed search changes nothing.
pub open spec fn spawn_ok(pre: Game, fe: bool, fc: (i32, i32)) -> bool {
    if pre.food_exists {
        fe == true && fc == pre.food_coords
    } else {
        &&& fe ==> in_interior(
            fc.0 as int,
            fc.1 as int,
            pre.dimensions.0 as int,
            pre.dimensions.1 as int,
        ) && !pre.snake.hazard_at(fc.0 as int, fc.1 as int)
        &&& !fe ==> fc == pre.food_coords
    }
}

/// `pre` with its food flag and coordinates replaced.
pub open spec fn with_food(pre: Game, fe: bool, fc: (i32, i32)) -> Game {
    Game {
        snake: pre.snake,
        food_exists: fe,
        food_coords: fc,
        dimensions: pre.dimensions,
        game_over: pre.game_over,
        waiting_time: pre.waiting_time,
    }
}

/// What a tick does. The accumulator grows by `delta_time`. A finished
/// game restarts to the starting state once the accumulator passes the
/// restart delay and otherwise waits. A running game first spawns food if
/// none exists (randomly, hence the existential over the outcome), then
/// steps once the accumulator passes the movement period.
pub open spec fn update_spec(pre: Game, post: Game, delta_time: u64) -> bool {
    let wt = pre.waiting_time + delta_time;
    if pre.game_over {
        if wt > RESTART_TIME_MS {
            post.is_initial(pre.dimensions)
        } else {
            &&& post.snake == pre.snake
            &&& post.food_exists == pre.food_exists
            &&& post.food_coords == pre.food_coords
            &&& post.dimensions == pre.dimensions
            &&& post.game_over == pre.game_over
            &&& post.waiting_time == wt
        }
    } else {
        exists|fe: bool, fc: (i32, i32)|
            {
                &&& #[trigger] spawn_ok(pre, fe, fc)
                &&& (wt > MOVING_PERIOD_MS ==> step_spec(with_food(pre, fe, fc), post, None))
                &&& (wt <= MOVING_PERIOD_MS ==> {
                    &&& post.snake == pre.snake
                    &&& post.food_exists == fe
                    &&& post.food_coords == fc
                    &&& post.dimensions == pre.dimensions
                    &&& post.game_over == false
                    &&& post.waiting_time == wt
                })
            }
    }
}

/// Relies on rand 0.8's `Rng::gen_range` over an `i32` range, via
/// `thread_rng`: the sample lies in the half-open range `[lo, hi)`;
/// `gen_range` panics only on an empty range, which the precondition
/// rules out.
#[verifier::external_body]
fn random_in_range(lo: i32, hi: i32) -> (r: i32)
    requires
        lo < hi,
    ensures
        lo <= r < hi,
{
    rand::thread_rng().gen_range(lo..hi)
}

impl Game {
    /// A new game on a `dimensions.0` by `dimensions.1` board, in the
    /// starting state. The board must be large enough to hold the fixed
    /// starting snake and food strictly inside its walls.
    pub fn new(dimensions: (i32, i32)) -> (game: Game)
        requires
            dimensions.0 >= 8,
            dimensions.1 >= 6,
        ensures
            game.wf(),
            game.is_initial(dimensions),
    {
        let game = Game {
            snake: Snake::new(2, 2),
            food_coords: (6, 4),
            dimensions,
            food_exists: true,
            game_over: false,
            waiting_time: 0,
        };
        proof {
            assert(game.snake.body@ =~= initial_body());
        }
        game
    }

    /// Handle one key event. Ignored entirely while the game is over. An
    /// input naming the exact opposite of the current heading is discarded
    /// (a same-tick reversal would pass through the snake's own neck);
    /// every other input, directional or not, forces an immediate step
    /// under the heading `key_direction` gives.
    pub fn key_pressed(&mut self, key: Key)
        requires
            old(self).wf(),
        ensures
            final(self).wf(),
            old(self).game_over ==> *final(self) == *old(self),
            !old(self).game_over && key_direction(key, old(self).snake.direction) == old(
                self,
            ).snake.direction.opposite_spec() ==> *final(self) == *old(self),
            !old(self).game_over && key_direction(key, old(self).snake.direction) != old(
                self,
            ).snake.direction.opposite_spec() ==> step_spec(
                *old(self),
                *final(self),
                Some(key_direction(key, old(self).snake.direction)),
            ),
    {
        if self.game_over {
            return ;
        }

        let direction = match key {
            Key::Up => Direction::Up,
            Key::Down => Direction::Down,
            Key::Left => Direction::Left,
            Key::Right => Direction::Right,
            Key::Other => self.snake.head_direction(),
        };

        if direction == self.snake.head_direction().opposite() {
            return ;
        }

        self.update_snake(Some(direction));
    }

    /// Advance the clock by `delta_time` milliseconds and do whatever the
    /// accumulated time calls for: restart a finished game after the
    /// restart delay, otherwise spawn food if none exists and step the
    /// snake after the movement period.
    pub fn update(&mut self, delta_time: u64)
        requires
            old(self).wf(),
            old(self).waiting_time + delta_time <= u64::MAX,
        ensures
            final(self).wf(),
            update_spec(*old(self), *final(self), delta_time),
    {
        self.waiting_time = self.waiting_time + delta_time;

        if self.game_over {
            if self.waiting_time > RESTART_TIME_MS {
                self.restart();
            }
            return ;
        }

        if !self.food_exists {
            self.add_food();
        }
        let ghost fe = self.food_exists;
        let ghost fc = self.food_coords;
        let ghost mid = *self;

        if self.waiting_time > MOVING_PERIOD_MS {
            self.update_snake(None);
        }

        proof {
            assert(spawn_ok(*old(self), fe, fc));
            if old(self).waiting_time + delta_time > MOVING_PERIOD_MS {
                assert(step_spec(mid, *self, None));
                assert(step_spec(with_food(*old(self), fe, fc), *self, None));
            }
        }
    }

    /// Would the snake survive a step under `direction`? False exactly
    /// when the would-be next head collides with a body cell or leaves the
    /// board interior.
    fn check_snake_alive(&self, direction: Option<Direction>) -> (alive: bool)
        requires
            self.wf(),
        ensures
            alive == ({
                let np = self.snake.next_head_spec(direction);
                !self.snake.hazard_at(np.0, np.1) && in_interior(
                    np.0,
                    np.1,
                    self.dimensions.0 as int,
                    self.dimensions.1 as int,
                )
            }),
    {
        proof {
            assert(self.cell_ok(self.snake.body@[0]));
        }
        let next = self.snake.next_head(direction);
        let (next_x, next_y) = next;
        let (width, height) = self.dimensions;

        if self.snake.overlap_tail(next) {
            return false;
        }

        next_x > 0 && next_y > 0 && next_x < width - 1 && next_y < height - 1
    }

    /// If food exists and the head has just landed on it, clear the food
    /// and restore the popped tail cell, growing the body by one.
    fn check_eating(&mut self)
        requires
            old(self).snake.wf(),
            (old(self).food_exists && old(self).food_coords.0 == old(self).snake.body@[0].x
                && old(self).food_coords.1 == old(self).snake.body@[0].y) ==> old(
                self,
            ).snake.tail is Some,
        ensures
            if old(self).food_exists && old(self).food_coords.0 == old(self).snake.body@[0].x
                && old(self).food_coords.1 == old(self).snake.body@[0].y {
                &&& final(self).snake.body@ == old(self).snake.body@.push(
                    old(self).snake.tail.unwrap(),
                )
                &&& final(self).snake.direction == old(self).snake.direction
                &&& final(self).snake.tail == old(self).snake.tail
                &&& final(self).food_exists == false
                &&& final(self).food_coords == old(self).food_coords
                &&& final(self).dimensions == old(self).dimensions
                &&& final(self).game_over == old(self).game_over
                &&& final(self).waiting_time == old(self).waiting_time
            } else {
                *final(self) == *old(self)
            },
    {
        let head = self.snake.head_position();
        if self.food_exists && self.food_coords.0 == head.0 && self.food_coords.1 == head.1 {
            self.food_exists = false;
            self.snake.restore_tail();
        }
    }

    /// Try to place food on a uniformly random free interior cell. Samples
    /// up to `MAX_FOOD_TRIES` cells; if every sample lands on a hazard cell
    /// the state is left unchanged and placement falls to a later tick.
    pub fn add_food(&mut self)
        requires
            old(self).wf(),
            !old(self).food_exists,
        ensures
            final(self).wf(),
            final(self).snake == old(self).snake,
            final(self).dimensions == old(self).dimensions,
            final(self).game_over == old(self).game_over,
            final(self).waiting_time == old(self).waiting_time,
            final(self).food_exists ==> in_interior(
                final(self).food_coords.0 as int,
                final(self).food_coords.1 as int,
                old(self).dimensions.0 as int,
                old(self).dimensions.1 as int,
            ) && !old(self).snake.hazard_at(
                final(self).food_coords.0 as int,
                final(self).food_coords.1 as int,
            ),
            !final(self).food_exists ==> *final(self) == *old(self),
    {
        let (width, height) = self.dimensions;
        let mut tries: u32 = 0;
        while tries < MAX_FOOD_TRIES
            invariant
                *self == *old(self),
                self.wf(),
                !self.food_exists,
                width == self.dimensions.0,
                height == self.dimensions.1,
            decreases MAX_FOOD_TRIES - tries,
        {
            let new_x = random_in_range(1, width - 1);
            let new_y = random_in_range(1, height - 1);
            if !self.snake.overlap_tail((new_x, new_y)) {
                self.food_coords = (new_x, new_y);
                self.food_exists = true;
                return ;
            }
            tries += 1;
        }
    }

    /// One step of the snake under `direction`, per `step_spec`: die on a
    /// collision, otherwise move and possibly eat; the accumulator is reset
    /// either way.
    pub fn update_snake(&mut self, direction: Option<Direction>)
        requires
            old(self).wf(),
        ensures
            final(self).wf(),
            step_spec(*old(self), *final(self), direction),
    {
        if self.check_snake_alive(direction) {
            proof {
                assert(self.cell_ok(self.snake.body@[0]));
                assert(self.cell_ok(self.snake.body@[self.snake.body@.len() - 1]));
            }
            self.snake.move_forward(direction);
            self.check_eating();
            proof {
                let pre = *old(self);
                let np = pre.snake.next_head_spec(direction);
                if pre.food_exists && pre.food_coords.0 == np.0 && pre.food_coords.1 == np.1 {
                    assert(self.snake.body@ =~= seq![
                        Block { x: np.0 as i32, y: np.1 as i32 },
                    ] + pre.snake.body@);
                }
                assert forall|i: int| 0 <= i < self.snake.body@.len() implies self.cell_ok(
                    #[trigger] self.snake.body@[i],
                ) by {
                    if i > 0 && i < pre.snake.moved_body(direction).len() {
                        assert(pre.cell_ok(pre.snake.body@[i - 1]));
                    }
                    if i == pre.snake.body@.len() {
                        assert(pre.cell_ok(pre.snake.body@[i - 1]));
                    }
                }
            }
        } else {
            self.game_over = true;
        }
        self.waiting_time = 0;
    }

    /// Return to the construction-time starting state: fresh snake, fresh
    /// food, not over, accumulator at zero. The board keeps its size.
    fn restart(&mut self)
        requires
            old(self).wf(),
        ensures
            final(self).wf(),
            final(self).is_initial(old(self).dimensions),
    {
        self.snake = Snake::new(2, 2);
        self.waiting_time = 0;
        self.food_exists = true;
        self.food_coords = (6, 4);
        self.game_over = false;
        proof {
            assert(self.snake.body@ =~= initial_body());
        }
    }
}

/// Law: a step whose next head lands on the food grows the body by exactly
/// one cell and, with no direction override, leaves the heading unchanged.
pub proof fn lemma_eating_grows(pre: Game, post: Game)
    requires
        pre.snake.wf(),
        step_spec(pre, post, None),
        ({
            let np = pre.snake.next_head_spec(None);
            &&& !pre.snake.hazard_at(np.0, np.1)
            &&& in_interior(np.0, np.1, pre.dimensions.0 as int, pre.dimensions.1 as int)
            &&& pre.food_exists
            &&& pre.food_coords.0 == np.0 && pre.food_coords.1 == np.1
        }),
    ensures
        post.snake.body@.len() == pre.snake.body@.len() + 1,
        post.snake.direction == pre.snake.direction,
        post.game_over == pre.game_over,
{
}

/// Law: a game restarted after game over and a freshly constructed game on
/// the same board are the same state, field for field.
pub proof fn lemma_restart_matches_new(a: Game, b: Game, dims: (i32, i32))
    requires
        a.is_initial(dims),
        b.is_initial(dims),
    ensures
        a.snake.body@ == b.snake.body@,
        a.snake.direction == b.snake.direction,
        a.snake.tail == b.snake.tail,
        a.food_exists == b.food_exists,
        a.food_coords == b.food_coords,
        a.dimensions == b.dimensions,
        a.game_over == b.game_over,
        a.waiting_time == b.waiting_time,
{
}

} // verus!
