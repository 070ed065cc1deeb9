use vstd::prelude::*;

use rand::rngs::ThreadRng;
use rand::seq::SliceRandom;

use crate::config::{
    MAP_CELLS, MAP_CENTRE_X, MAP_CENTRE_Y, MAP_HEIGHT, MAP_WIDTH, MILLIS_PER_SECOND,
    SLITHERS_PER_SECOND,
};
use crate::direction::{key_direction, Direction, Key};
use crate::object::{in_bounds, Colour, Object, Point};
use crate::snake::{starting_snake, Snake, SnakeState};

verus! {

/// rand's per-thread random generator, carried through the game opaquely.
#[verifier::external_type_specification]
#[verifier::external_body]
pub struct ExThreadRng(rand::rngs::ThreadRng);

/// Relies on rand::thread_rng, which hands out the thread's random generator.
pub assume_specification[ rand::thread_rng ]() -> rand::rngs::ThreadRng;

/// Relies on rand's SliceRandom::choose: `None` exactly for an empty slice,
/// otherwise one of its elements, picked at random.
#[verifier::external_body]
fn choose_point(points: &Vec<Point>, rng: &mut ThreadRng) -> (r: Option<Point>)
    ensures
        r is None <==> points@.len() == 0,
        r matches Some(p) ==> points@.contains(p),
{
    points.choose(rng).copied()
}

/// Glyph of the fruit.
pub const FRUIT_GLYPH: char = '*';

/// A cell on which fruit may appear: on the field, free of every segment of
/// `body`, and not where the fruit already is.
pub open spec fn is_empty_cell(body: Seq<Object>, fruit: Point, p: Point) -> bool {
    &&& in_bounds(p)
    &&& p != fruit
    &&& forall|i: int| 0 <= i < body.len() ==> #[trigger] body[i].position != p
}

/// Row-major rank of a cell.
pub open spec fn cell_rank(p: Point) -> int {
    p.y * MAP_WIDTH + p.x
}

/// Milliseconds from `prev` to `now`; zero where the clock went backwards.
pub open spec fn elapsed(prev: u64, now: u64) -> int {
    if now > prev {
        now - prev
    } else {
        0
    }
}

/// More than one slither period has passed since `prev`.
pub open spec fn slither_due(prev: u64, now: u64) -> bool {
    elapsed(prev, now) * SLITHERS_PER_SECOND > MILLIS_PER_SECOND
}

/// `new` is a respawn of `old` beside `body`: same glyph and colour, and an
/// empty cell as its position, or, where no cell is empty, no change.
pub open spec fn fruit_respawned(body: Seq<Object>, old: Object, new: Object) -> bool {
    &&& new.glyph == old.glyph
    &&& new.colour == old.colour
    &&& if exists|p: Point| is_empty_cell(body, old.position, p) {
        is_empty_cell(body, old.position, new.position)
    } else {
        new == old
    }
}

/// The fruit of a game before its first spawn, off the field.
pub open spec fn unplaced_fruit() -> Object {
    Object { position: Point { x: -1i32, y: -1i32 }, glyph: FRUIT_GLYPH, colour: Colour::Fruit }
}

/// The abstract state of a game.
pub struct GameView {
    pub snake: SnakeState,
    pub fruit: Object,
    pub score: usize,
    pub game_over: bool,
    pub paused: bool,
    /// Clock reading, in milliseconds, of the latest snake update.
    pub previous_snake_update_time: u64,
}

impl GameView {
    pub open spec fn wf(self) -> bool {
        self.snake.wf()
    }

    /// Whether the game counts as over at the start of a logic step: it was
    /// already, or the snake fills the field, or the snake is dead.
    pub open spec fn is_over(self) -> bool {
        self.game_over || self.snake.body.len() == MAP_CELLS || !self.snake.alive
    }

    /// Whether a logic step finds the head on the fruit.
    pub open spec fn eats(self) -> bool {
        !self.is_over() && self.snake.body[0].position == self.fruit.position
    }

    /// `self` is a fresh game started at clock reading `now`, after one whose
    /// fruit was `prior_fruit` and whose pause flag was `paused`.
    pub open spec fn is_fresh(self, prior_fruit: Object, paused: bool, now: u64) -> bool {
        &&& self.snake == starting_snake()
        &&& fruit_respawned(starting_snake().body, prior_fruit, self.fruit)
        &&& self.score == 0
        &&& !self.game_over
        &&& self.paused == paused
        &&& self.previous_snake_update_time == now
    }

    /// `new` may follow `self` by one logic step at clock reading `now`: the
    /// game-over flag is settled, fruit under the head is eaten (score, growth,
    /// respawn), and the snake is updated once the slither period has passed,
    /// unless the game is over with the snake alive.
    pub open spec fn logic_step(self, now: u64, new: GameView) -> bool {
        let over = self.is_over();
        let eats = self.eats();
        let fed = if eats { self.snake.grown() } else { self.snake };
        let due = slither_due(self.previous_snake_update_time, now) && (!over || !fed.alive);
        &&& new.game_over == over
        &&& new.paused == self.paused
        &&& new.score == (if eats && self.score < usize::MAX { (self.score + 1) as usize } else { self.score })
        &&& if eats { fruit_respawned(fed.body, self.fruit, new.fruit) } else { new.fruit == self.fruit }
        &&& new.snake == (if due { fed.stepped() } else { fed })
        &&& new.previous_snake_update_time == (if due { now } else { self.previous_snake_update_time })
    }

    /// `new` may follow `self` by the key press `key` at clock reading `now`.
    /// Before the game is over, a movement key turns a living snake unless the
    /// game is paused, and Escape or P toggle the pause; once it is over, only
    /// R acts, and restarts the game.
    pub open spec fn input_step(self, key: Key, now: u64, new: GameView) -> bool {
        if !self.game_over {
            match key_direction(key) {
                Some(d) => new == (if self.snake.alive && !self.paused {
                    GameView { snake: self.snake.turned(d), ..self }
                } else {
                    self
                }),
                None => new == (if key == Key::Escape || key == Key::P {
                    GameView { paused: !self.paused, ..self }
                } else {
                    self
                }),
            }
        } else if key == Key::R {
            new.is_fresh(self.fruit, self.paused, now)
        } else {
            new == self
        }
    }
}

/// A respawned fruit, where any cell was empty, lies on the field, on no
/// segment, and off its former cell.
pub proof fn lemma_respawned_fruit_is_clear(body: Seq<Object>, old: Object, new: Object)
    requires
        fruit_respawned(body, old, new),
        exists|p: Point| is_empty_cell(body, old.position, p),
    ensures
        in_bounds(new.position),
        new.position != old.position,
        forall|i: int| 0 <= i < body.len() ==> #[trigger] body[i].position != new.position,
{
}

/// A logic step ends the game once the snake is seen dead, and an ended game
/// stays ended: only a restart clears it.
pub proof fn lemma_game_over_is_sticky(g: GameView, now: u64, new: GameView, key: Key, after: GameView)
    requires
        g.logic_step(now, new),
        new.input_step(key, now, after),
    ensures
        !g.snake.alive ==> new.game_over,
        g.game_over ==> new.game_over,
        new.game_over && key != Key::R ==> after.game_over,
{
}

/// A living snake that fills the whole field wins: the logic step ends the
/// game and leaves the snake alive and in place.
pub proof fn lemma_full_snake_wins(g: GameView, now: u64, new: GameView)
    requires
        g.wf(),
        g.snake.alive,
        g.snake.body.len() == MAP_CELLS,
        g.logic_step(now, new),
    ensures
        new.game_over,
        new.snake.alive,
        new.snake == g.snake,
{
}

/// What the game shows in a label.
#[derive(Clone, Copy, Debug, PartialEq, Eq, Structural)]
pub enum Message {
    Paused,
    GameOver,
    Won,
    Score(usize),
    RestartHint,
}

/// A line of text centred on column `x` of row `y`.
#[derive(Clone, Copy, Debug, PartialEq, Eq, Structural)]
pub struct Label {
    pub x: i32,
    pub y: i32,
    pub message: Message,
}

/// Everything one frame draws over the cleared background: cells first, in
/// order, then labels.
#[derive(Debug)]
pub struct Scene {
    pub cells: Vec<Object>,
    pub labels: Vec<Label>,
}

/// A game of snake: the snake, the fruit, the score, the flags, and the
/// random generator that places fruit.
pub struct Game {
    rng: ThreadRng,
    snake: Snake,
    fruit: Object,
    score: usize,
    game_over: bool,
    paused: bool,
    previous_snake_update_time: u64,
}

impl View for Game {
    type V = GameView;

    closed spec fn view(&self) -> GameView {
        GameView {
            snake: self.snake@,
            fruit: self.fruit,
            score: self.score,
            game_over: self.game_over,
            paused: self.paused,
            previous_snake_update_time: self.previous_snake_update_time,
        }
    }
}

impl Game {
    /// A fresh game whose clock reads `now` (milliseconds), with the fruit
    /// spawned on a random empty cell.
    pub fn new(now: u64) -> (r: Game)
        ensures
            r@.wf(),
            r@.is_fresh(unplaced_fruit(), false, now),
    {
        let mut game = Game {
            rng: rand::thread_rng(),
            snake: Snake::default(),
            fruit: Object::new(Point::new(-1, -1), FRUIT_GLYPH, Colour::Fruit),
            score: 0,
            game_over: false,
            paused: false,
            previous_snake_update_time: now,
        };
        game.spawn_fruit();
        game
    }

    /// Starts over at clock reading `now`: a fresh snake, a respawned fruit,
    /// score zero, not over; the pause flag is kept.
    pub fn reset(&mut self, now: u64)
        ensures
            final(self)@.wf(),
            final(self)@.is_fresh(old(self)@.fruit, old(self)@.paused, now),
    {
        self.snake = Snake::default();
        self.spawn_fruit();
        self.previous_snake_update_time = now;
        self.score = 0;
        self.game_over = false;
    }

    /// Every empty cell, in row-major order.
    pub fn get_empty_points(&self) -> (r: Vec<Point>)
        ensures
            forall|i: int| 0 <= i < r@.len() ==> is_empty_cell(self@.snake.body, self@.fruit.position, #[trigger] r@[i]),
            forall|i: int, j: int| 0 <= i < j < r@.len() ==> cell_rank(#[trigger] r@[i]) < cell_rank(#[trigger] r@[j]),
            forall|p: Point| is_empty_cell(self@.snake.body, self@.fruit.position, p) ==> r@.contains(p),
    {
        let ghost body = self@.snake.body;
        let ghost fruit = self@.fruit.position;
        let mut out: Vec<Point> = Vec::new();
        let mut y: i32 = 0;
        while y < MAP_HEIGHT
            invariant
                0 <= y <= MAP_HEIGHT,
                body == self@.snake.body,
                fruit == self@.fruit.position,
                forall|i: int| 0 <= i < out@.len() ==> is_empty_cell(body, fruit, #[trigger] out@[i]),
                forall|i: int| 0 <= i < out@.len() ==> cell_rank(#[trigger] out@[i]) < y * MAP_WIDTH,
                forall|i: int, j: int| 0 <= i < j < out@.len() ==> cell_rank(#[trigger] out@[i]) < cell_rank(#[trigger] out@[j]),
                forall|p: Point| is_empty_cell(body, fruit, p) && p.y < y ==> out@.contains(p),
            decreases MAP_HEIGHT - y,
        {
            let mut x: i32 = 0;
            while x < MAP_WIDTH
                invariant
                    0 <= y < MAP_HEIGHT,
                    0 <= x <= MAP_WIDTH,
                    body == self@.snake.body,
                    fruit == self@.fruit.position,
                    forall|i: int| 0 <= i < out@.len() ==> is_empty_cell(body, fruit, #[trigger] out@[i]),
                    forall|i: int| 0 <= i < out@.len() ==> cell_rank(#[trigger] out@[i]) < y * MAP_WIDTH + x,
                    forall|i: int, j: int| 0 <= i < j < out@.len() ==> cell_rank(#[trigger] out@[i]) < cell_rank(#[trigger] out@[j]),
                    forall|p: Point| is_empty_cell(body, fruit, p) && (p.y < y || (p.y == y && p.x < x)) ==> out@.contains(p),
                decreases MAP_WIDTH - x,
            {
                let point = Point::new(x, y);
                if !self.snake.occupies(point) && point != self.fruit.position {
                    let ghost before = out@;
                    out.push(point);
                    assert(out@[out@.len() - 1] == point);
                    assert forall|p: Point| is_empty_cell(body, fruit, p) && (p.y < y || (p.y == y && p.x < x + 1)) implies out@.contains(p) by {
                        if p == point {
                            assert(out@[out@.len() - 1] == p);
                        } else {
                            assert(before.contains(p));
                            let k = choose|k: int| 0 <= k < before.len() && before[k] == p;
                            assert(out@[k] == p);
                        }
                    }
                } else {
                    assert forall|p: Point| is_empty_cell(body, fruit, p) && (p.y < y || (p.y == y && p.x < x + 1)) implies out@.contains(p) by {
                        if p == point {
                            if self.snake.occupies_spec(point) {
                                let k = choose|k: int| 0 <= k < body.len() && body[k].position == point;
                                assert(body[k].position != p);
                            }
                        }
                    }
                }
                x = x + 1;
            }
            y = y + 1;
        }
        out
    }

    /// Moves the fruit to a random empty cell; where there is none, the fruit
    /// stays where it is.
    fn spawn_fruit(&mut self)
        ensures
            final(self)@ == (GameView { fruit: final(self)@.fruit, ..old(self)@ }),
            fruit_respawned(old(self)@.snake.body, old(self)@.fruit, final(self)@.fruit),
    {
        let spawn_locations = self.get_empty_points();
        match choose_point(&spawn_locations, &mut self.rng) {
            Some(p) => {
                self.fruit = Object::new(p, self.fruit.glyph, self.fruit.colour);
            },
            None => {
                assert forall|p: Point| !is_empty_cell(self@.snake.body, self@.fruit.position, p) by {
                    if is_empty_cell(self@.snake.body, self@.fruit.position, p) {
                        assert(spawn_locations@.contains(p));
                    }
                }
            },
        }
    }

    /// Updates the snake where more than one slither period has passed since
    /// its latest update, unless the game is over with the snake alive.
    fn update_snake(&mut self, now: u64)
        requires
            old(self)@.wf(),
        ensures
            final(self)@.wf(),
            ({
                let g = old(self)@;
                let due = slither_due(g.previous_snake_update_time, now) && (!g.game_over || !g.snake.alive);
                final(self)@ == (GameView {
                    snake: if due { g.snake.stepped() } else { g.snake },
                    previous_snake_update_time: if due { now } else { g.previous_snake_update_time },
                    ..g
                })
            }),
    {
        let elapsed: u64 = if now > self.previous_snake_update_time {
            now - self.previous_snake_update_time
        } else {
            0
        };
        assert(elapsed > MILLIS_PER_SECOND / SLITHERS_PER_SECOND <==> elapsed * SLITHERS_PER_SECOND > MILLIS_PER_SECOND);
        if (!self.snake.is_alive() || !self.game_over) && elapsed > MILLIS_PER_SECOND / SLITHERS_PER_SECOND {
            self.snake.update();
            self.previous_snake_update_time = now;
        }
    }

    /// One logic step at clock reading `now`: settle whether the game is over,
    /// eat fruit under the head, and update the snake when due.
    pub fn handle_logic(&mut self, now: u64)
        requires
            old(self)@.wf(),
        ensures
            final(self)@.wf(),
            old(self)@.logic_step(now, final(self)@),
    {
        if !self.game_over {
            let won = self.snake.len() == MAP_CELLS;
            let lost = !self.snake.is_alive();
            self.game_over = won || lost;
        }
        if !self.game_over {
            let head = self.snake.segment(0);
            if head.position == self.fruit.position {
                if self.score < usize::MAX {
                    self.score = self.score + 1;
                }
                self.snake.grow();
                self.spawn_fruit();
            }
        }
        self.update_snake(now);
    }

    /// Reacts to one key press at clock reading `now`.
    pub fn execute_input(&mut self, key: Key, now: u64)
        requires
            old(self)@.wf(),
        ensures
            final(self)@.wf(),
            old(self)@.input_step(key, now, final(self)@),
    {
        if !self.game_over {
            match Direction::from_key(key) {
                Some(direction) => {
                    if self.snake.is_alive() && !self.paused {
                        self.snake.set_direction(direction);
                    }
                },
                None => {
                    if key == Key::Escape || key == Key::P {
                        self.paused = !self.paused;
                    }
                },
            }
        } else if key == Key::R {
            self.reset(now);
        }
    }

    /// One frame's logic at clock reading `now`: nothing while paused,
    /// otherwise a logic step.
    pub fn tick(&mut self, now: u64)
        requires
            old(self)@.wf(),
        ensures
            final(self)@.wf(),
            old(self)@.paused ==> final(self)@ == old(self)@,
            !old(self)@.paused ==> old(self)@.logic_step(now, final(self)@),
    {
        if !self.paused {
            self.handle_logic(now);
        }
    }

    /// What the current frame shows: while paused only a centred label; else
    /// the snake's segments and then, before the game is over, the fruit, or,
    /// once it is over, three centred lines whose middle one tells a win (the
    /// snake still alive) or the score.
    pub fn scene(&self) -> (r: Scene)
        ensures
            self@.paused ==> r.cells@ == Seq::<Object>::empty() && r.labels@ == seq![
                Label { x: MAP_CENTRE_X, y: MAP_CENTRE_Y, message: Message::Paused },
            ],
            !self@.paused && !self@.game_over ==> r.cells@ == self@.snake.body.push(self@.fruit)
                && r.labels@ == Seq::<Label>::empty(),
            !self@.paused && self@.game_over ==> r.cells@ == self@.snake.body && r.labels@ == seq![
                Label { x: MAP_CENTRE_X, y: (MAP_CENTRE_Y - 3) as i32, message: Message::GameOver },
                Label {
                    x: MAP_CENTRE_X,
                    y: MAP_CENTRE_Y,
                    message: if self@.snake.alive { Message::Won } else { Message::Score(self@.score) },
                },
                Label { x: MAP_CENTRE_X, y: (MAP_CENTRE_Y + 3) as i32, message: Message::RestartHint },
            ],
    {
        let mut labels: Vec<Label> = Vec::new();
        if self.paused {
            labels.push(Label { x: MAP_CENTRE_X, y: MAP_CENTRE_Y, message: Message::Paused });
            return Scene { cells: Vec::new(), labels };
        }
        let mut cells = self.snake.segments();
        if self.game_over {
            let outcome = if self.snake.is_alive() {
                Message::Won
            } else {
                Message::Score(self.score)
            };
            labels.push(Label { x: MAP_CENTRE_X, y: MAP_CENTRE_Y - 3, message: Message::GameOver });
            labels.push(Label { x: MAP_CENTRE_X, y: MAP_CENTRE_Y, message: outcome });
            labels.push(Label { x: MAP_CENTRE_X, y: MAP_CENTRE_Y + 3, message: Message::RestartHint });
        } else {
            cells.push(self.fruit);
        }
        Scene { cells, labels }
    }

    /// Puts the fruit on cell `position`.
    pub fn place_fruit(&mut self, position: Point)
        ensures
            final(self)@ == (GameView {
                fruit: Object { position, glyph: old(self)@.fruit.glyph, colour: old(self)@.fruit.colour },
                ..old(self)@
            }),
    {
        self.fruit = Object::new(position, self.fruit.glyph, self.fruit.colour);
    }

    pub fn snake(&self) -> (r: &Snake)
        ensures
            r@ == self@.snake,
    {
        &self.snake
    }

    pub fn fruit(&self) -> (r: Object)
        ensures
            r == self@.fruit,
    {
        self.fruit
    }

    pub fn score(&self) -> (r: usize)
        ensures
            r == self@.score,
    {
        self.score
    }

    pub fn is_game_over(&self) -> (r: bool)
        ensures
            r == self@.game_over,
    {
        self.game_over
    }

    pub fn is_paused(&self) -> (r: bool)
        ensures
            r == self@.paused,
    {
        self.paused
    }
}

} // verus!
