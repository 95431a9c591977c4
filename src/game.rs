//! A game session: the state machine around the snake, the per-frame
//! pipeline (input, scheduler, movement, collision) and the food signal.

use vstd::prelude::*;
use crate::grid::{Position, Dir};
use crate::snake::{Snake, Head, Ate, stepped, hits_body, is_simple_path, key_choice};
use crate::collision::{Field, field_ok, inside, check_border, check_self};
use crate::scheduler::{Timer, advanced, TURN_DELAY};
use crate::laws::lemma_step_keeps_simple_path;

verus! {

/// Where a session stands.
#[derive(Clone, Copy, Debug, PartialEq, Eq, Structural)]
pub enum GameState {
    Playing,
    Paused,
    GameOver,
}

/// Column and row of the first food.
pub const FOOD_START: i32 = 3;

/// A session of the game.
pub struct Game {
    pub state: GameState,
    pub snake: Snake,
    pub timer: Timer,
    /// Food eaten in this session.
    pub score: u64,
    pub food: Position,
    pub field: Field,
}

/// A head at `p` can take a step in any direction.
pub open spec fn movable(p: Position) -> bool {
    &&& i32::MIN < p.x < i32::MAX
    &&& i32::MIN < p.y < i32::MAX
}

/// The score after one more food, held at the largest value.
pub open spec fn score_after_food(s: u64) -> u64 {
    if s < u64::MAX {
        (s + 1) as u64
    } else {
        s
    }
}

/// What one frame's scheduler, movement and collision stages make of `g`:
/// `h` is the session after them and `moved` tells whether a step fired.
pub open spec fn tick_result(g: Game, dt: u64, h: Game, moved: bool) -> bool {
    if g.state != GameState::Playing {
        h == g && !moved
    } else {
        &&& moved == (dt >= g.timer.remaining)
        &&& h.timer == advanced(g.timer, dt)
        &&& h.score == g.score
        &&& h.food == g.food
        &&& h.field == g.field
        &&& if moved {
            let cells = stepped(g.snake.cells(), g.snake.head.direction, g.snake.head.ate.0);
            &&& h.snake.cells() == cells
            &&& h.snake.head == (Head {
                direction: g.snake.head.direction,
                last_direction: g.snake.head.direction,
                ate: Ate(false),
            })
            &&& h.state == (if hits_body(cells) || !inside(cells[0], g.field) {
                GameState::GameOver
            } else {
                GameState::Playing
            })
        } else {
            &&& h.snake == g.snake
            &&& h.state == GameState::Playing
        }
    }
}

/// What the input stage makes of `g` for the movement keys held this frame.
pub open spec fn keys_result(g: Game, left: bool, right: bool, up: bool, down: bool, h: Game) -> bool {
    &&& h.state == g.state
    &&& h.timer == g.timer
    &&& h.score == g.score
    &&& h.food == g.food
    &&& h.field == g.field
    &&& h.snake.chain == g.snake.chain
    &&& h.snake.head.last_direction == g.snake.head.last_direction
    &&& h.snake.head.ate == g.snake.head.ate
    &&& h.snake.head.direction == (if g.state == GameState::Playing {
        match key_choice(left, right, up, down, g.snake.head.last_direction) {
            Some(d) => d,
            None => g.snake.head.direction,
        }
    } else {
        g.snake.head.direction
    })
}

/// The food signal: the head of a running session is on the food.
pub open spec fn on_food(g: Game) -> bool {
    g.state == GameState::Playing && g.snake.cells()[0] == g.food
}

/// What eating makes of `g` when the food moves to `new_food`.
pub open spec fn food_result(g: Game, new_food: Position, h: Game, eaten: bool) -> bool {
    &&& eaten == on_food(g)
    &&& h.state == g.state
    &&& h.timer == g.timer
    &&& h.field == g.field
    &&& h.snake.chain == g.snake.chain
    &&& h.snake.head.direction == g.snake.head.direction
    &&& h.snake.head.last_direction == g.snake.head.last_direction
    &&& if eaten {
        &&& h.food == new_food
        &&& h.snake.head.ate == Ate(true)
        &&& h.score == score_after_food(g.score)
    } else {
        &&& h.food == g.food
        &&& h.snake.head.ate == g.snake.head.ate
        &&& h.score == g.score
    }
}

/// What one frame makes of `g`: the input stage, then the scheduler,
/// movement and collision stages, then the food stage, which moves eaten
/// food to the cell where `h` has it.
pub open spec fn frame_result(
    g: Game,
    dt: u64,
    left: bool,
    right: bool,
    up: bool,
    down: bool,
    h: Game,
    moved: bool,
    eaten: bool,
) -> bool {
    exists|a: Game, b: Game|
        {
            &&& #[trigger] keys_result(g, left, right, up, down, a)
            &&& #[trigger] tick_result(a, dt, b, moved)
            &&& food_result(b, h.food, h, eaten)
        }
}

/// A food cell that the session may draw: within the field, short of its
/// last column and row.
pub open spec fn food_cell_ok(p: Position, f: Field) -> bool {
    &&& f.min.x <= p.x < f.max.x
    &&& f.min.y <= p.y < f.max.y
}

/// Relies on rand's thread-local generator `rand::rng` and
/// `Rng::random_range`, which returns a value of `lo..hi` and panics only
/// when that range is empty.
#[verifier::external_body]
fn random_coordinate(lo: i32, hi: i32) -> (r: i32)
    requires
        lo < hi,
    ensures
        lo <= r < hi,
{
    rand::Rng::random_range(&mut rand::rng(), lo..hi)
}

impl Game {
    /// The session invariant: a session that has not ended has a head that
    /// can move and a body that forms a simple path.
    pub open spec fn wf(&self) -> bool {
        &&& self.snake.wf()
        &&& self.snake.cells().len() >= 1
        &&& field_ok(self.field)
        &&& self.state != GameState::GameOver ==> {
            &&& movable(self.snake.cells()[0])
            &&& is_simple_path(self.snake.cells())
        }
    }

    /// A new session on `field`: playing, the starting layout, no score, the
    /// food at `(3, 3)` and a full turn delay to the first step.
    pub fn new(field: Field) -> (r: Game)
        requires
            field_ok(field),
        ensures
            r.wf(),
            r.state == GameState::Playing,
            r.snake.cells() == seq![Position { x: 1, y: 0 }, Position { x: 0, y: 0 }],
            r.snake.head == (Head { direction: Dir::Right, last_direction: Dir::Right, ate: Ate(false) }),
            r.timer == (Timer { delay: TURN_DELAY, remaining: TURN_DELAY }),
            r.score == 0,
            r.food == (Position { x: 3, y: 3 }),
            r.field == field,
    {
        let r = Game {
            state: GameState::Playing,
            snake: Snake::new(),
            timer: Timer::new(TURN_DELAY),
            score: 0,
            food: Position { x: FOOD_START, y: FOOD_START },
            field,
        };
        assert(r.snake.cells()[0] == Position { x: 1, y: 0 });
        r
    }

    /// The movement keys held this frame, read only while playing.
    pub fn handle_keys(&mut self, left: bool, right: bool, up: bool, down: bool)
        requires
            old(self).wf(),
        ensures
            final(self).wf(),
            keys_result(*old(self), left, right, up, down, *final(self)),
    {
        if self.state == GameState::Playing {
            self.snake.handle_keys(left, right, up, down);
        }
    }

    /// The scheduler, movement and collision stages of one frame of length
    /// `dt`: while playing, counts the frame down; when a step is due, moves
    /// the snake and ends the session if the head left the field or ran into
    /// the body. Returns whether a step fired.
    pub fn tick(&mut self, dt: u64) -> (moved: bool)
        requires
            old(self).wf(),
        ensures
            final(self).wf(),
            tick_result(*old(self), dt, *final(self), moved),
    {
        if self.state != GameState::Playing {
            return false;
        }
        let fired = self.timer.advance(dt);
        if fired {
            let ghost before = self.snake.cells();
            let ghost d = self.snake.head.direction;
            let ghost grow = self.snake.head.ate.0;
            proof {
                self.snake.chain.lemma_nonempty();
            }
            self.snake.step();
            let head = self.snake.head_position();
            let body = self.snake.body_positions();
            let hit_self = check_self(head, &body);
            let hit_border = check_border(head, self.field);
            proof {
                let cells = self.snake.cells();
                assert(cells == stepped(before, d, grow));
                if hit_self {
                    let i = choose|i: int| 0 <= i < body@.len() && #[trigger] body@[i] == head;
                    assert(cells[i + 1] == cells[0]);
                }
                if hits_body(cells) {
                    let i = choose|i: int| 1 <= i < cells.len() && #[trigger] cells[i] == cells[0];
                    assert(body@[i - 1] == head);
                }
                assert(hit_self == hits_body(cells));
            }
            if hit_self || hit_border {
                self.state = GameState::GameOver;
            } else {
                proof {
                    lemma_step_keeps_simple_path(before, d, grow);
                }
            }
        }
        fired
    }

    /// Eats the food if the head of a running session is on it: the food
    /// moves to `new_food`, growth is owed to the next step and the score
    /// goes up by one. Returns whether the food was eaten.
    pub fn eat(&mut self, new_food: Position) -> (eaten: bool)
        requires
            old(self).wf(),
        ensures
            final(self).wf(),
            food_result(*old(self), new_food, *final(self), eaten),
    {
        let head = self.snake.head_position();
        if self.state == GameState::Playing && head == self.food {
            self.food = new_food;
            self.snake.head.ate = Ate(true);
            if self.score < u64::MAX {
                self.score = self.score + 1;
            }
            true
        } else {
            false
        }
    }

    /// The food stage of a frame: when the head of a running session is on
    /// the food, the food moves to a random cell of the field, short of its
    /// last column and row, and is counted as eaten.
    pub fn check_food(&mut self) -> (eaten: bool)
        requires
            old(self).wf(),
        ensures
            final(self).wf(),
            food_result(*old(self), final(self).food, *final(self), eaten),
            eaten ==> food_cell_ok(final(self).food, old(self).field),
    {
        let head = self.snake.head_position();
        if self.state == GameState::Playing && head == self.food {
            let x = random_coordinate(self.field.min.x, self.field.max.x);
            let y = random_coordinate(self.field.min.y, self.field.max.y);
            self.eat(Position { x, y })
        } else {
            false
        }
    }

    /// One frame of length `dt` with the movement keys held: the input,
    /// scheduler, movement, collision and food stages in that order. Returns
    /// whether a step fired and whether food was eaten.
    pub fn frame(&mut self, dt: u64, left: bool, right: bool, up: bool, down: bool) -> (r: (
        bool,
        bool,
    ))
        requires
            old(self).wf(),
        ensures
            final(self).wf(),
            frame_result(*old(self), dt, left, right, up, down, *final(self), r.0, r.1),
            final(self).score >= old(self).score,
            r.1 ==> food_cell_ok(final(self).food, old(self).field),
    {
        self.handle_keys(left, right, up, down);
        let ghost a = *self;
        let moved = self.tick(dt);
        let ghost b = *self;
        let eaten = self.check_food();
        assert(keys_result(*old(self), left, right, up, down, a));
        assert(tick_result(a, dt, b, moved));
        assert(food_result(b, self.food, *self, eaten));
        assert(frame_result(*old(self), dt, left, right, up, down, *self, moved, eaten));
        (moved, eaten)
    }

    /// Ends a finished session and starts a new one: the starting layout and
    /// no score. The timer, the food and the field stay.
    pub fn restart(&mut self)
        requires
            old(self).wf(),
        ensures
            final(self).wf(),
            final(self).state == GameState::Playing,
            final(self).snake.cells() == seq![Position { x: 1, y: 0 }, Position { x: 0, y: 0 }],
            final(self).snake.head == (Head {
                direction: Dir::Right,
                last_direction: Dir::Right,
                ate: Ate(false),
            }),
            final(self).score == 0,
            final(self).timer == old(self).timer,
            final(self).food == old(self).food,
            final(self).field == old(self).field,
    {
        self.snake = Snake::new();
        self.score = 0;
        self.state = GameState::Playing;
        assert(self.snake.cells()[0] == Position { x: 1, y: 0 });
    }

    /// The restart key: starts a new session only once the current one has
    /// ended. Returns whether it did.
    pub fn request_restart(&mut self) -> (restarted: bool)
        requires
            old(self).wf(),
        ensures
            final(self).wf(),
            restarted == (old(self).state == GameState::GameOver),
            !restarted ==> *final(self) == *old(self),
            restarted ==> final(self).state == GameState::Playing && final(self).score == 0
                && final(self).snake.cells() == seq![
                Position { x: 1, y: 0 },
                Position { x: 0, y: 0 },
            ],
    {
        if self.state == GameState::GameOver {
            self.restart();
            true
        } else {
            false
        }
    }

    /// The pause key: pauses a running session and resumes a paused one; an
    /// ended session stays ended.
    pub fn toggle_pause(&mut self)
        requires
            old(self).wf(),
        ensures
            final(self).wf(),
            final(self).state == match old(self).state {
                GameState::Playing => GameState::Paused,
                GameState::Paused => GameState::Playing,
                GameState::GameOver => GameState::GameOver,
            },
            final(self).snake == old(self).snake,
            final(self).timer == old(self).timer,
            final(self).score == old(self).score,
            final(self).food == old(self).food,
            final(self).field == old(self).field,
    {
        match self.state {
            GameState::Playing => {
                self.state = GameState::Paused;
            },
            GameState::Paused => {
                self.state = GameState::Playing;
            },
            GameState::GameOver => {},
        }
    }
}

} // verus!
