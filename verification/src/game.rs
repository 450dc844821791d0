//! The game proper: board dimensions, food, the movement timer and the
//! running/game-over state machine, built around a `Snake`.
//!
//! Time is counted in integer milliseconds. The snake advances once the
//! accumulated waiting time exceeds `MOVING_PERIOD_MS`; after a death the
//! game restarts once it exceeds `RESTART_TIME_MS`.

use rand::Rng;
use vstd::prelude::*;

use crate::draw::{draw_block, draw_rectangle, ColorRole, Rect};
use crate::snake::{
    dir_or, hits_tail, spec_body_rects, spec_opposite, step_cell, Block, Direction, Snake,
};

verus! {

/// Milliseconds between automatic forward steps.
pub const MOVING_PERIOD_MS: u64 = 100;

/// Milliseconds the game-over screen is shown before the game restarts.
pub const RESTART_TIME_MS: u64 = 1000;

/// How many random samples food placement takes before falling back to a
/// deterministic scan of the interior. The bound (rather than an unbounded
/// retry loop) keeps placement from spinning on a nearly full board.
pub const FOOD_SAMPLE_TRIES: u32 = 32;

/// A directional input key, or any other key, which the game ignores.
#[derive(Copy, Clone, PartialEq, Eq, Structural, Debug)]
pub enum Key {
    Up,
    Down,
    Left,
    Right,
    Other,
}

/// The candidate direction an input key maps to, if any.
pub open spec fn key_direction(k: Key) -> Option<Direction> {
    match k {
        Key::Up => Some(Direction::Up),
        Key::Down => Some(Direction::Down),
        Key::Left => Some(Direction::Left),
        Key::Right => Some(Direction::Right),
        Key::Other => None,
    }
}

/// The whole observable state of a game, as one mathematical value.
#[verifier::ext_equal]
pub ghost struct GameState {
    /// Body cells of the snake, head first.
    pub body: Seq<Block>,
    /// Current heading of the snake.
    pub dir: Direction,
    /// The snake's most recently dropped tail cell, if any.
    pub dropped: Option<Block>,
    /// The active food cell, if any.
    pub food: Option<Block>,
    /// Board width in cells, fixed at construction.
    pub width: int,
    /// Board height in cells, fixed at construction.
    pub height: int,
    /// Whether the game is over.
    pub game_over: bool,
    /// Milliseconds accumulated since the last snake advance or, when the
    /// game is over, since the death.
    pub waiting_time: int,
}

/// The state every game starts in (and returns to on restart): a three-cell
/// snake with its head at `(4, 2)` heading right, food at `(6, 4)`, running,
/// with the timer at zero.
pub open spec fn spec_initial(width: int, height: int) -> GameState {
    GameState {
        body: initial_body(),
        dir: Direction::Right,
        dropped: None,
        food: Some(Block { x: 6, y: 4 }),
        width,
        height,
        game_over: false,
        waiting_time: 0,
    }
}

/// The initial snake body: head `(4, 2)`, then `(3, 2)`, tail `(2, 2)`.
pub open spec fn initial_body() -> Seq<Block> {
    seq![Block { x: 4, y: 2 }, Block { x: 3, y: 2 }, Block { x: 2, y: 2 }]
}

/// A cell the game may hold in the snake's body: within the board's safe
/// envelope, so that one further step stays in machine range. Cells the
/// initial snake occupies are allowed on any board.
pub open spec fn cell_ok(b: Block, width: int, height: int) -> bool {
    &&& 0 <= b.x
    &&& 0 <= b.y
    &&& (b.x <= width - 2 || b.x <= 4)
    &&& (b.y <= height - 2 || b.y <= 4)
}

/// Well-formedness of a game state: a board of at least three cells a side,
/// a nonempty snake, and every snake cell (and the remembered dropped cell)
/// inside the safe envelope.
pub open spec fn state_wf(g: GameState) -> bool {
    &&& 3 <= g.width <= i32::MAX
    &&& 3 <= g.height <= i32::MAX
    &&& 1 <= g.body.len()
    &&& forall|i: int| 0 <= i < g.body.len() ==> cell_ok(#[trigger] g.body[i], g.width, g.height)
    &&& (g.dropped matches Some(b) ==> cell_ok(b, g.width, g.height))
}

/// Whether the snake survives one step in `dir` (or its current heading):
/// the prospective next head must not coincide with a body cell other than
/// the head, and must lie strictly inside the one-cell border ring.
pub open spec fn spec_alive(g: GameState, dir: Option<Direction>) -> bool {
    let next = step_cell(g.body[0].x as int, g.body[0].y as int, dir_or(dir, g.dir));
    &&& !hits_tail(g.body, next.0, next.1)
    &&& 0 < next.0 < g.width - 1
    &&& 0 < next.1 < g.height - 1
}

/// Whether the food sits exactly under the snake's head.
pub open spec fn spec_eats(g: GameState) -> bool {
    g.food matches Some(f) && f.x == g.body[0].x && f.y == g.body[0].y
}

/// The eating step: when the food sits under the head, it is deactivated and
/// the remembered dropped cell returns to the tail end; otherwise nothing
/// changes. (Eating without a recorded dropped cell cannot arise: eating
/// only follows a move, which records one.)
pub open spec fn spec_check_eating(g: GameState) -> GameState {
    if spec_eats(g) {
        GameState {
            food: None,
            body: match g.dropped {
                Some(b) => g.body.push(b),
                None => g.body,
            },
            ..g
        }
    } else {
        g
    }
}

/// One snake step of the game: if the step survives, the snake moves (and
/// eats the food if the new head lands on it, growing by the dropped cell);
/// otherwise the game is over. Either way the timer resets.
pub open spec fn spec_update_snake(g: GameState, dir: Option<Direction>) -> GameState {
    if spec_alive(g, dir) {
        let d = dir_or(dir, g.dir);
        let next = step_cell(g.body[0].x as int, g.body[0].y as int, d);
        let nh = Block { x: next.0 as i32, y: next.1 as i32 };
        let eats = (g.food matches Some(f) && f.x == next.0 && f.y == next.1);
        GameState {
            body: if eats {
                seq![nh] + g.body
            } else {
                seq![nh] + g.body.drop_last()
            },
            dir: d,
            dropped: Some(g.body.last()),
            food: if eats {
                None
            } else {
                g.food
            },
            waiting_time: 0,
            ..g
        }
    } else {
        GameState { game_over: true, waiting_time: 0, ..g }
    }
}

/// Touching or crossing the border ring is lethal: a prospective next head
/// with its x on or beyond the leftmost or rightmost column, or its y on or
/// beyond the topmost or bottommost row, does not survive the step.
pub proof fn lemma_border_is_lethal(g: GameState, dir: Option<Direction>)
    requires
        1 <= g.body.len(),
        ({
            let next = step_cell(g.body[0].x as int, g.body[0].y as int, dir_or(dir, g.dir));
            next.0 <= 0 || next.0 >= g.width - 1 || next.1 <= 0 || next.1 >= g.height - 1
        }),
    ensures
        !spec_alive(g, dir),
{
}

/// Eating: when the step survives and the food sits exactly on the
/// prospective next head, the step consumes the food, grows the body by one
/// cell, and the cell that held the food becomes the head.
pub proof fn lemma_eating(g: GameState, dir: Option<Direction>)
    requires
        1 <= g.body.len(),
        spec_alive(g, dir),
        (g.food matches Some(f) && (f.x as int, f.y as int) == step_cell(
            g.body[0].x as int,
            g.body[0].y as int,
            dir_or(dir, g.dir),
        )),
    ensures
        spec_update_snake(g, dir).food is None,
        spec_update_snake(g, dir).body.len() == g.body.len() + 1,
        (g.food matches Some(f) && spec_update_snake(g, dir).body[0] == f),
{
}

/// A cell where food may be placed: strictly inside the border ring and not
/// on a body cell other than the head (food may spawn under the head, a
/// deliberate policy).
pub open spec fn valid_food(f: Block, g: GameState) -> bool {
    &&& 1 <= f.x <= g.width - 2
    &&& 1 <= f.y <= g.height - 2
    &&& !hits_tail(g.body, f.x as int, f.y as int)
}

/// What food placement may leave behind: a valid food cell, or none at all
/// only when the board has no valid cell left.
pub open spec fn food_outcome(g: GameState, f_opt: Option<Block>) -> bool {
    match f_opt {
        Some(f) => valid_food(f, g),
        None => !(exists|f: Block| valid_food(f, g)),
    }
}

/// Everything the game shows, as a rectangle list: the snake's body, the
/// food cell if present, the four single-cell-thick border strips, and a
/// full-board overlay when the game is over.
pub open spec fn spec_draw(g: GameState) -> Seq<Rect> {
    let base = spec_body_rects(g.body) + (match g.food {
        Some(f) => seq![Rect { color: ColorRole::Food, x: f.x, y: f.y, width: 1, height: 1 }],
        None => Seq::<Rect>::empty(),
    }) + seq![
        Rect { color: ColorRole::Border, x: 0, y: 0, width: g.width as i32, height: 1 },
        Rect {
            color: ColorRole::Border,
            x: 0,
            y: (g.height - 1) as i32,
            width: g.width as i32,
            height: 1,
        },
        Rect { color: ColorRole::Border, x: 0, y: 0, width: 1, height: g.height as i32 },
        Rect {
            color: ColorRole::Border,
            x: (g.width - 1) as i32,
            y: 0,
            width: 1,
            height: g.height as i32,
        },
    ];
    if g.game_over {
        base + seq![
            Rect {
                color: ColorRole::GameOver,
                x: 0,
                y: 0,
                width: g.width as i32,
                height: g.height as i32,
            },
        ]
    } else {
        base
    }
}

/// Drawing is a pure query: any two rectangle lists drawn from one game
/// state, with no mutation in between, are identical.
pub proof fn lemma_draw_deterministic(g: GameState, r1: Seq<Rect>, r2: Seq<Rect>)
    requires
        r1 =~= spec_draw(g),
        r2 =~= spec_draw(g),
    ensures
        r1 =~= r2,
{
}

/// The running game: the snake, the food, the board dimensions, the
/// game-over flag and the movement/restart timer.
pub struct Game {
    snake: Snake,
    food_exists: bool,
    food_x: i32,
    food_y: i32,
    width: i32,
    height: i32,
    game_over: bool,
    waiting_time: u64,
}

impl View for Game {
    type V = GameState;

    closed spec fn view(&self) -> GameState {
        GameState {
            body: self.snake@,
            dir: self.snake.dir(),
            dropped: self.snake.dropped(),
            food: if self.food_exists {
                Some(Block { x: self.food_x, y: self.food_y })
            } else {
                None
            },
            width: self.width as int,
            height: self.height as int,
            game_over: self.game_over,
            waiting_time: self.waiting_time as int,
        }
    }
}

/// Relies on `rand::thread_rng` and `rand::Rng::gen_range`: a uniformly
/// random integer in the half-open range `lo..hi`, which panics only on an
/// empty range. Nothing is promised beyond the bounds: every outcome within
/// them is possible.
#[verifier::external_body]
fn random_in_range(lo: i32, hi: i32) -> (r: i32)
    requires
        lo < hi,
    ensures
        lo <= r < hi,
{
    rand::thread_rng().gen_range(lo..hi)
}

/// The first interior cell, in row order from `(1, 1)`, that does not hit
/// the snake's tail, or `None` when the snake covers the whole interior.
fn find_free_interior_cell(snake: &Snake, width: i32, height: i32) -> (r: Option<(i32, i32)>)
    requires
        3 <= width,
        3 <= height,
        1 <= snake@.len(),
    ensures
        (r matches Some(c) ==> 1 <= c.0 <= width - 2 && 1 <= c.1 <= height - 2 && !hits_tail(
            snake@,
            c.0 as int,
            c.1 as int,
        )),
        (r is None ==> forall|fx: int, fy: int|
            1 <= fx <= width - 2 && 1 <= fy <= height - 2 ==> hits_tail(snake@, fx, fy)),
{
    let mut y: i32 = 1;
    while y < height - 1
        invariant
            3 <= width,
            3 <= height,
            1 <= snake@.len(),
            1 <= y <= height - 1,
            forall|fx: int, fy: int| 1 <= fx <= width - 2 && 1 <= fy < y ==> hits_tail(snake@, fx, fy),
        decreases height - 1 - y,
    {
        let mut x: i32 = 1;
        while x < width - 1
            invariant
                3 <= width,
                3 <= height,
                1 <= snake@.len(),
                1 <= y <= height - 2,
                1 <= x <= width - 1,
                forall|fx: int, fy: int|
                    1 <= fx <= width - 2 && 1 <= fy < y ==> hits_tail(snake@, fx, fy),
                forall|fx: int| 1 <= fx < x ==> hits_tail(snake@, fx, y as int),
            decreases width - 1 - x,
        {
            if !snake.overlap_tail(x, y) {
                return Some((x, y));
            }
            x += 1;
        }
        y += 1;
    }
    None
}

impl Game {
    /// Well-formedness of the game's state.
    pub open spec fn wf(&self) -> bool {
        state_wf(self@)
    }

    /// A fresh game on a `width` by `height` board. The board must leave at
    /// least one cell strictly inside the border ring.
    pub fn new(width: i32, height: i32) -> (r: Game)
        requires
            3 <= width,
            3 <= height,
        ensures
            r.wf(),
            r@ =~= spec_initial(width as int, height as int),
    {
        let r = Game {
            snake: Snake::new(2, 2),
            waiting_time: 0,
            food_exists: true,
            food_x: 6,
            food_y: 4,
            width,
            height,
            game_over: false,
        };
        proof {
            assert(r@.body =~= initial_body());
        }
        r
    }

    /// Whether the game is over.
    pub fn is_game_over(&self) -> (r: bool)
        ensures
            r == self@.game_over,
    {
        self.game_over
    }

    /// The active food cell, if any.
    pub fn food(&self) -> (r: Option<Block>)
        ensures
            r == self@.food,
    {
        if self.food_exists {
            Some(Block { x: self.food_x, y: self.food_y })
        } else {
            None
        }
    }

    /// The snake's head cell.
    pub fn head_position(&self) -> (r: (i32, i32))
        requires
            self.wf(),
        ensures
            r.0 == self@.body[0].x,
            r.1 == self@.body[0].y,
    {
        self.snake.head_position()
    }

    /// Whether the snake would survive one step in `dir` (or its current
    /// heading): the prospective next head must neither coincide with a body
    /// cell other than the head nor touch or cross the one-cell border ring.
    pub fn check_if_snake_alive(&self, dir: Option<Direction>) -> (r: bool)
        requires
            self.wf(),
        ensures
            r == spec_alive(self@, dir),
    {
        let (next_x, next_y) = self.snake.next_head(dir);

        if self.snake.overlap_tail(next_x, next_y) {
            return false;
        }

        next_x > 0 && next_y > 0 && next_x < self.width - 1 && next_y < self.height - 1
    }

    /// If the food sits exactly under the snake's head, deactivates it and
    /// grows the snake by the remembered dropped cell. Eating can only
    /// follow a move, so a dropped cell must be recorded whenever the food
    /// is under the head.
    pub fn check_eating(&mut self)
        requires
            1 <= old(self)@.body.len(),
            spec_eats(old(self)@) ==> old(self)@.dropped is Some,
        ensures
            final(self)@ =~= spec_check_eating(old(self)@),
    {
        let (head_x, head_y) = self.snake.head_position();
        if self.food_exists && self.food_x == head_x && self.food_y == head_y {
            self.food_exists = false;
            self.snake.restore_tail();
        }
    }

    /// One snake step: if the step in `dir` (or the current heading)
    /// survives, the snake moves and then eats any food under its new head;
    /// otherwise the game is over. Either way the movement timer resets.
    pub fn update_snake(&mut self, dir: Option<Direction>)
        requires
            old(self).wf(),
        ensures
            final(self).wf(),
            final(self)@ =~= spec_update_snake(old(self)@, dir),
    {
        let ghost g0 = self@;
        if self.check_if_snake_alive(dir) {
            self.snake.move_forward(dir);
            self.check_eating();
        } else {
            self.game_over = true;
        }
        self.waiting_time = 0;
        proof {
            if spec_alive(g0, dir) {
                assert(self@.body =~= spec_update_snake(g0, dir).body);
            }
            assert(self@ =~= spec_update_snake(g0, dir));
        }
    }

    /// Maps an input key to a candidate direction and applies it: no-op once
    /// the game is over, on an unrecognized key, and on a key that would
    /// reverse the snake onto itself; any other directional key forces an
    /// immediate snake step in that direction.
    pub fn key_pressed(&mut self, key: Key)
        requires
            old(self).wf(),
        ensures
            final(self).wf(),
            (old(self)@.game_over || key_direction(key) is None || key_direction(key) == Some(
                spec_opposite(old(self)@.dir),
            )) ==> final(self)@ =~= old(self)@,
            (!old(self)@.game_over && key_direction(key) is Some && key_direction(key) != Some(
                spec_opposite(old(self)@.dir),
            )) ==> final(self)@ =~= spec_update_snake(old(self)@, key_direction(key)),
    {
        if self.game_over {
            return ;
        }

        let dir: Option<Direction> = match key {
            Key::Up => Some(Direction::Up),
            Key::Down => Some(Direction::Down),
            Key::Left => Some(Direction::Left),
            Key::Right => Some(Direction::Right),
            Key::Other => None,
        };

        let d = match dir {
            Some(d) => d,
            None => {
                return ;
            },
        };

        if d == self.snake.head_direction().opposite() {
            return ;
        }

        self.update_snake(dir);
    }

    /// Places food on a fresh cell: samples uniformly random interior cells
    /// until one misses the snake's tail, up to `FOOD_SAMPLE_TRIES` times,
    /// then falls back to a deterministic scan. Only when the snake covers
    /// every interior cell is the food left absent.
    pub fn add_food(&mut self)
        requires
            3 <= old(self)@.width,
            3 <= old(self)@.height,
            1 <= old(self)@.body.len(),
        ensures
            final(self)@ =~= (GameState { food: final(self)@.food, ..old(self)@ }),
            food_outcome(old(self)@, final(self)@.food),
    {
        let mut tries: u32 = 0;
        let mut new_x = random_in_range(1, self.width - 1);
        let mut new_y = random_in_range(1, self.height - 1);
        let mut hit = self.snake.overlap_tail(new_x, new_y);

        while hit && tries < FOOD_SAMPLE_TRIES
            invariant
                3 <= self@.width,
                3 <= self@.height,
                1 <= self@.body.len(),
                1 <= new_x && new_x as int <= self@.width - 2,
                1 <= new_y && new_y as int <= self@.height - 2,
                hit == hits_tail(self@.body, new_x as int, new_y as int),
            decreases FOOD_SAMPLE_TRIES - tries,
        {
            new_x = random_in_range(1, self.width - 1);
            new_y = random_in_range(1, self.height - 1);
            hit = self.snake.overlap_tail(new_x, new_y);
            tries += 1;
        }

        if !hit {
            self.food_x = new_x;
            self.food_y = new_y;
            self.food_exists = true;
            return ;
        }

        match find_free_interior_cell(&self.snake, self.width, self.height) {
            Some((x, y)) => {
                self.food_x = x;
                self.food_y = y;
                self.food_exists = true;
            },
            None => {
                self.food_exists = false;
                proof {
                    assert forall|f: Block| !valid_food(f, old(self)@) by {
                        if 1 <= f.x <= old(self)@.width - 2 && 1 <= f.y <= old(self)@.height - 2 {
                            assert(hits_tail(old(self)@.body, f.x as int, f.y as int));
                        }
                    }
                }
            },
        }
    }

    /// Resets the game to the exact state a fresh game starts in, keeping
    /// the board dimensions. The snake is replaced wholesale.
    pub fn restart(&mut self)
        requires
            old(self).wf(),
        ensures
            final(self).wf(),
            final(self)@ =~= spec_initial(old(self)@.width, old(self)@.height),
    {
        self.snake = Snake::new(2, 2);
        self.waiting_time = 0;
        self.food_exists = true;
        self.food_x = 6;
        self.food_y = 4;
        self.game_over = false;
        proof {
            assert(self@.body =~= initial_body());
        }
    }

    /// Advances the game clock by `delta_ms` milliseconds. When the game is
    /// over, restarts it once the accumulated time exceeds the restart
    /// delay. Otherwise, places food if none is active, then takes one snake
    /// step once the accumulated time exceeds the movement period.
    pub fn update(&mut self, delta_ms: u64)
        requires
            old(self).wf(),
            old(self)@.waiting_time + delta_ms <= u64::MAX,
        ensures
            final(self).wf(),
            ({
                let w = old(self)@.waiting_time + delta_ms;
                &&& (old(self)@.game_over && w > RESTART_TIME_MS) ==> final(self)@ =~= spec_initial(
                    old(self)@.width,
                    old(self)@.height,
                )
                &&& (old(self)@.game_over && w <= RESTART_TIME_MS) ==> final(self)@ =~= (GameState {
                    waiting_time: w,
                    ..old(self)@
                })
                &&& (!old(self)@.game_over && old(self)@.food is Some && w > MOVING_PERIOD_MS)
                    ==> final(self)@ =~= spec_update_snake(old(self)@, None)
                &&& (!old(self)@.game_over && old(self)@.food is Some && w <= MOVING_PERIOD_MS)
                    ==> final(self)@ =~= (GameState { waiting_time: w, ..old(self)@ })
                &&& (!old(self)@.game_over && old(self)@.food is None) ==> (exists|
                    fo: Option<Block>,
                |
                    #[trigger] food_outcome(old(self)@, fo) && if w > MOVING_PERIOD_MS {
                        final(self)@ =~= spec_update_snake(
                            (GameState { food: fo, ..old(self)@ }),
                            None,
                        )
                    } else {
                        final(self)@ =~= (GameState { food: fo, waiting_time: w, ..old(self)@ })
                    })
            }),
    {
        let ghost g0 = self@;
        self.waiting_time = self.waiting_time + delta_ms;

        if self.game_over {
            if self.waiting_time > RESTART_TIME_MS {
                self.restart();
            }
            return ;
        }

        let ghost ga = self@;
        if !self.food_exists {
            self.add_food();
        }
        let ghost g1 = self@;
        proof {
            if g0.food is None {
                assert forall|f: Block| valid_food(f, ga) == valid_food(f, g0) by {}
                assert(food_outcome(g0, g1.food));
            }
        }

        if self.waiting_time > MOVING_PERIOD_MS {
            self.update_snake(None);
            proof {
                if g0.food is Some {
                    assert(self@ =~= spec_update_snake(g0, None));
                } else {
                    let fo = g1.food;
                    assert(spec_update_snake(g1, None) =~= spec_update_snake(
                        (GameState { food: fo, ..g0 }),
                        None,
                    ));
                    assert(self@ =~= spec_update_snake((GameState { food: fo, ..g0 }), None));
                }
            }
        } else {
            proof {
                if g0.food is None {
                    let fo = g1.food;
                    assert(self@ =~= (GameState {
                        food: fo,
                        waiting_time: g0.waiting_time + delta_ms,
                        ..g0
                    }));
                }
            }
        }
    }

    /// Describes everything on the screen as a rectangle list: the snake's
    /// body cells, the food cell if active, the four border strips, and a
    /// full-board overlay once the game is over. A pure query: the game is
    /// not changed.
    pub fn draw(&self) -> (r: Vec<Rect>)
        requires
            self.wf(),
        ensures
            r@ =~= spec_draw(self@),
    {
        let mut r = self.snake.draw();

        if self.food_exists {
            r.push(draw_block(ColorRole::Food, self.food_x, self.food_y));
        }

        r.push(draw_rectangle(ColorRole::Border, 0, 0, self.width, 1));
        r.push(draw_rectangle(ColorRole::Border, 0, self.height - 1, self.width, 1));
        r.push(draw_rectangle(ColorRole::Border, 0, 0, 1, self.height));
        r.push(draw_rectangle(ColorRole::Border, self.width - 1, 0, 1, self.height));

        if self.game_over {
            r.push(draw_rectangle(ColorRole::GameOver, 0, 0, self.width, self.height));
        }

        proof {
            assert(r@ =~= spec_draw(self@));
        }
        r
    }
}

} // verus!
