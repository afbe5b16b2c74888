use vstd::prelude::*;
use crate::geometry::{cell, in_grid, sentinel, Point, CAPACITY, SIDE};
use crate::placement::{
    fruit_spot, free_cells_upto, get_random_location, lemma_cell_in_grid, lemma_free_cell_exists,
    lemma_free_cells_nonempty, lemma_free_cells_valid, lemma_fruit_spot_valid,
};
use crate::snake::{dir_down, dir_left, dir_right, dir_up, turn, Snake, SnakeModel};
use crate::fruit::{fruit_glyph, Fruit};

verus! {

/// Gamepad bit of the left button.
pub const BUTTON_LEFT: u8 = 16;

/// Gamepad bit of the right button.
pub const BUTTON_RIGHT: u8 = 32;

/// Gamepad bit of the up button.
pub const BUTTON_UP: u8 = 64;

/// Gamepad bit of the down button.
pub const BUTTON_DOWN: u8 = 128;

/// The four directional bits together.
pub const DIRECTION_BUTTONS: u8 = 240;

/// The snake moves on every frame whose number is a multiple of this.
pub const MOVE_PERIOD: u32 = 15;

/// The whole game: snake, fruit, score, frame counter and input debouncer.
pub struct Game {
    snake: Snake,
    fruit: Fruit,
    fruit_count: u16,
    frame_count: u32,
    prev_input: u8,
    processing_input: bool,
}

/// The mathematical model of a game.
pub ghost struct GameModel {
    pub snake: SnakeModel,
    /// Fruit location, or the sentinel when there is none.
    pub fruit: Point,
    /// The fruit's glyph.
    pub fruit_glyph: Seq<u8>,
    /// Number of fruits eaten.
    pub score: u16,
    pub frame_count: u32,
    /// The raw gamepad sample of the previous frame.
    pub prev_input: u8,
    /// The debouncer's gate: a direction change waits for the next move.
    pub processing_input: bool,
}

/// The buttons held in `input` that were not held in `prev`.
pub open spec fn newly_pressed(input: u8, prev: u8) -> u8 {
    input & (input ^ prev)
}

/// The direction after the newly pressed buttons `pressed` are applied to `dir`: the first
/// of left, right, up, down that is set asks for a turn.
pub open spec fn steer(dir: Point, pressed: u8) -> Point {
    if pressed & BUTTON_LEFT != 0 {
        turn(dir, dir_left())
    } else if pressed & BUTTON_RIGHT != 0 {
        turn(dir, dir_right())
    } else if pressed & BUTTON_UP != 0 {
        turn(dir, dir_up())
    } else if pressed & BUTTON_DOWN != 0 {
        turn(dir, dir_down())
    } else {
        dir
    }
}

/// Whether the head lies on another active segment.
pub open spec fn self_collision(s: SnakeModel) -> bool {
    exists|i: int| 1 <= i < s.len && #[trigger] s.body[i] == s.body[0]
}

/// The frame counter after one frame, wrapping at the end of its range.
pub open spec fn next_frame(frame_count: u32) -> u32 {
    if frame_count == u32::MAX {
        0
    } else {
        (frame_count + 1) as u32
    }
}

impl GameModel {
    pub open spec fn wf(self) -> bool {
        &&& self.snake.wf()
        &&& (self.fruit == sentinel() || in_grid(self.fruit))
        &&& self.fruit_glyph == fruit_glyph()
    }

    /// The game after the debouncer has seen the gamepad sample `input`.
    pub open spec fn after_input(self, input: u8) -> GameModel {
        if self.processing_input {
            GameModel { prev_input: input, ..self }
        } else {
            let pressed = newly_pressed(input, self.prev_input);
            GameModel {
                snake: SnakeModel { direction: steer(self.snake.direction, pressed), ..self.snake },
                processing_input: pressed & DIRECTION_BUTTONS != 0,
                prev_input: input,
                ..self
            }
        }
    }

    /// The game after a movement step: the snake moves, growing when its head was on the
    /// fruit; an eaten fruit is placed anew and counted; the debouncer's gate opens.
    pub open spec fn after_move(self) -> GameModel {
        let eat = self.snake.head() == self.fruit;
        let snake = self.snake.moved(eat);
        GameModel {
            snake,
            fruit: if eat {
                fruit_spot(snake.segments(), self.frame_count)
            } else {
                self.fruit
            },
            score: if eat && self.score < u16::MAX {
                (self.score + 1) as u16
            } else {
                self.score
            },
            processing_input: false,
            ..self
        }
    }

    /// The game after one frame with gamepad sample `input`. A game whose snake has hit
    /// itself is over and stays as it is.
    pub open spec fn next(self, input: u8) -> GameModel {
        if self_collision(self.snake) {
            self
        } else {
            let counted = GameModel { frame_count: next_frame(self.frame_count), ..self };
            let steered = counted.after_input(input);
            if steered.frame_count % MOVE_PERIOD == 0 {
                steered.after_move()
            } else {
                steered
            }
        }
    }
}

/// The game after one frame for each sample of `inputs`, in order.
pub open spec fn run(g: GameModel, inputs: Seq<u8>) -> GameModel
    decreases inputs.len(),
{
    if inputs.len() == 0 {
        g
    } else {
        run(g.next(inputs[0]), inputs.drop_first())
    }
}

/// One frame keeps a well-formed game well-formed.
pub proof fn lemma_next_wf(g: GameModel, input: u8)
    requires
        g.wf(),
    ensures
        g.next(input).wf(),
{
    let counted = GameModel { frame_count: next_frame(g.frame_count), ..g };
    let steered = counted.after_input(input);
    assert(steered.wf());
    let eat = steered.snake.head() == steered.fruit;
    crate::snake::lemma_moved_wf(steered.snake, eat);
    lemma_fruit_spot_valid(steered.snake.moved(eat).segments(), steered.frame_count);
}

/// Every game state reached from a well-formed one, whatever the gamepad samples, is
/// well-formed: in particular its active segments form one contiguous run from the head,
/// with only sentinels after them.
pub proof fn lemma_reachable_wf(g: GameModel, inputs: Seq<u8>)
    requires
        g.wf(),
    ensures
        run(g, inputs).wf(),
    decreases inputs.len(),
{
    if inputs.len() > 0 {
        lemma_next_wf(g, inputs[0]);
        lemma_reachable_wf(g.next(inputs[0]), inputs.drop_first());
    }
}

/// Two runs from the same state with the same gamepad samples pass through the same
/// states: the game depends on nothing else.
pub proof fn lemma_runs_agree(a: GameModel, b: GameModel, inputs: Seq<u8>)
    requires
        a == b,
    ensures
        forall|k: int| 0 <= k <= inputs.len() ==> #[trigger] run(a, inputs.take(k)) == run(b, inputs.take(k)),
{
}

/// Between two moves the debouncer accepts one direction change: after a frame whose
/// sample newly presses a direction button, the input gate is closed and the next frame's
/// sample leaves the direction as the first one set it, unless that next frame is a move
/// frame.
pub proof fn lemma_debounce(g: GameModel, first: u8, second: u8)
    requires
        g.wf(),
        !self_collision(g.snake),
        !g.processing_input,
        newly_pressed(first, g.prev_input) & DIRECTION_BUTTONS != 0,
        next_frame(g.frame_count) % MOVE_PERIOD != 0,
        next_frame(next_frame(g.frame_count)) % MOVE_PERIOD != 0,
    ensures
        g.next(first).processing_input,
        g.next(first).snake.direction == steer(g.snake.direction, newly_pressed(first, g.prev_input)),
        g.next(first).next(second).snake.direction == g.next(first).snake.direction,
        g.next(first).next(second).processing_input,
{
    let g1 = g.next(first);
    assert(g1.snake.body == g.snake.body && g1.snake.len == g.snake.len);
    assert(!self_collision(g1.snake));
}

/// The debouncer's gate opens on every move frame and only there: a pending direction
/// change stays pending through every other frame of a game that is not over.
pub proof fn lemma_gate_opens_on_move(g: GameModel, input: u8)
    requires
        !self_collision(g.snake),
    ensures
        next_frame(g.frame_count) % MOVE_PERIOD == 0 ==> !g.next(input).processing_input,
        next_frame(g.frame_count) % MOVE_PERIOD != 0 && g.processing_input ==> g.next(input).processing_input,
{
}

/// A head lying on another segment ends the game at the next frame: the frame reports it
/// and leaves every part of the game as it was.
pub proof fn lemma_overlap_ends_game(g: GameModel, input: u8)
    requires
        exists|i: int| 1 <= i < g.snake.len && #[trigger] g.snake.body[i] == g.snake.body[0],
    ensures
        self_collision(g.snake),
        g.next(input) == g,
{
}

impl View for Game {
    type V = GameModel;

    closed spec fn view(&self) -> GameModel {
        GameModel {
            snake: self.snake@,
            fruit: self.fruit.spec_location(),
            fruit_glyph: self.fruit.spec_sprite(),
            score: self.fruit_count,
            frame_count: self.frame_count,
            prev_input: self.prev_input,
            processing_input: self.processing_input,
        }
    }
}

impl Game {
    pub open spec fn wf(&self) -> bool {
        self@.wf()
    }

    /// A new game: the starting snake, no fruit yet, all counters at zero.
    pub fn new() -> (r: Game)
        ensures
            r.wf(),
            r@.snake.segments() == seq![Point { x: 0i8, y: 0i8 }, Point { x: 1i8, y: 0i8 }, Point { x: 2i8, y: 0i8 }],
            r@.snake.direction == dir_left(),
            r@.fruit == sentinel(),
            r@.fruit_glyph == fruit_glyph(),
            r@.score == 0,
            r@.frame_count == 0,
            r@.prev_input == 0,
            !r@.processing_input,
    {
        Game {
            snake: Snake::new(),
            fruit: Fruit::new(),
            fruit_count: 0,
            frame_count: 0,
            prev_input: 0,
            processing_input: false,
        }
    }

    /// A new game around the given snake: no fruit yet, all counters at zero.
    pub fn with_snake(snake: Snake) -> (r: Game)
        requires
            snake.wf(),
        ensures
            r.wf(),
            r@.snake == snake@,
            r@.fruit == sentinel(),
            r@.score == 0,
            r@.frame_count == 0,
            r@.prev_input == 0,
            !r@.processing_input,
    {
        Game {
            snake,
            fruit: Fruit::new(),
            fruit_count: 0,
            frame_count: 0,
            prev_input: 0,
            processing_input: false,
        }
    }

    /// Counts one frame.
    pub fn update(&mut self)
        ensures
            final(self)@ == (GameModel { frame_count: next_frame(old(self)@.frame_count), ..old(self)@ }),
    {
        if self.frame_count == u32::MAX {
            self.frame_count = 0;
        } else {
            self.frame_count = self.frame_count + 1;
        }
    }

    /// Runs the debouncer on the gamepad sample `gamepad`: unless a direction change is
    /// pending, the first newly pressed direction button steers the snake and a newly
    /// pressed direction button closes the input gate; the sample is kept for the next frame.
    pub fn input(&mut self, gamepad: u8)
        requires
            old(self).wf(),
        ensures
            final(self).wf(),
            final(self)@ == old(self)@.after_input(gamepad),
    {
        if !self.processing_input {
            let just_pressed: u8 = gamepad & (gamepad ^ self.prev_input);
            if just_pressed & BUTTON_LEFT != 0 {
                self.snake.left();
            } else if just_pressed & BUTTON_RIGHT != 0 {
                self.snake.right();
            } else if just_pressed & BUTTON_UP != 0 {
                self.snake.up();
            } else if just_pressed & BUTTON_DOWN != 0 {
                self.snake.down();
            }
            if just_pressed & DIRECTION_BUTTONS != 0 {
                self.processing_input = true;
            }
        }
        self.prev_input = gamepad;
    }

    /// Whether the head is on the fruit.
    pub fn check_fruit_collision(&mut self) -> (r: bool)
        requires
            old(self).wf(),
        ensures
            r == (old(self)@.snake.head() == old(self)@.fruit),
            *final(self) == *old(self),
    {
        let mut collision = false;
        if self.snake.segment(0).equals(self.fruit.location()) {
            collision = true;
        }
        collision
    }

    /// Whether the head lies on another active segment: the game is then over.
    pub fn check_snake_collision(&mut self) -> (r: bool)
        requires
            old(self).wf(),
        ensures
            r == self_collision(old(self)@.snake),
            *final(self) == *old(self),
    {
        let head = self.snake.segment(0);
        let n = self.snake.len();
        let mut i: usize = 1;
        while i < n
            invariant
                self.wf(),
                n == self@.snake.len,
                1 <= i <= n,
                head == self@.snake.body[0],
                forall|j: int| 1 <= j < i ==> #[trigger] self@.snake.body[j] != head,
            decreases n - i,
        {
            if head.equals(self.snake.segment(i)) {
                return true;
            }
            i = i + 1;
        }
        false
    }

    /// Places the fruit on a free cell picked from the frame counter: the free cells in
    /// row-major order, index `(frame_count * frame_count + FRUIT_SEED) % count`. With no
    /// free cell the board is full and the fruit is removed (set to the sentinel).
    pub fn place_random_fruit(&mut self)
        requires
            old(self).wf(),
        ensures
            final(self).wf(),
            final(self)@ == (GameModel {
                fruit: fruit_spot(old(self)@.snake.segments(), old(self)@.frame_count),
                ..old(self)@
            }),
            old(self)@.snake.len < CAPACITY ==> in_grid(final(self)@.fruit)
                && !old(self)@.snake.segments().contains(final(self)@.fruit),
    {
        let ghost segs = self@.snake.segments();
        let mut available_locations: Vec<Point> = Vec::new();
        let mut k: usize = 0;
        while k < CAPACITY
            invariant
                self.wf(),
                segs == self@.snake.segments(),
                k <= CAPACITY,
                available_locations@ == free_cells_upto(segs, k as nat),
            decreases CAPACITY - k,
        {
            let p = Point::new((k % (SIDE as usize)) as i8, (k / (SIDE as usize)) as i8);
            assert(p == cell(k as int));
            if !self.snake.occupies(p) {
                available_locations.push(p);
            }
            k = k + 1;
        }
        proof {
            lemma_free_cells_valid(segs, CAPACITY as nat);
            if segs.len() < CAPACITY {
                lemma_free_cell_exists(segs);
                lemma_free_cells_nonempty(segs, CAPACITY as nat);
            }
        }
        let location = if available_locations.len() == 0 {
            Point::new(-1, -1)
        } else {
            get_random_location(self.frame_count, available_locations)
        };
        self.fruit = Fruit::at(location);
    }

    pub fn snake(&self) -> (r: &Snake)
        ensures
            r@ == self@.snake,
    {
        &self.snake
    }

    pub fn fruit(&self) -> (r: &Fruit)
        ensures
            r.spec_location() == self@.fruit,
            r.spec_sprite() == self@.fruit_glyph,
    {
        &self.fruit
    }

    /// Number of fruits eaten.
    pub fn score(&self) -> (r: u16)
        ensures
            r == self@.score,
    {
        self.fruit_count
    }

    pub fn frame_count(&self) -> (r: u32)
        ensures
            r == self@.frame_count,
    {
        self.frame_count
    }

    /// Whether a direction change is pending until the next move.
    pub fn processing_input(&self) -> (r: bool)
        ensures
            r == self@.processing_input,
    {
        self.processing_input
    }
}

/// Plays one frame with the gamepad sample `gamepad`. Returns whether the game is over
/// (the head lies on another segment); an over game is left as it is. Otherwise the
/// frame is counted and the debouncer runs; on every `MOVE_PERIOD`-th frame the snake
/// moves, growing onto an eaten fruit, which is placed anew and scored, and the
/// debouncer's gate opens.
pub fn update(game: &mut Game, gamepad: u8) -> (game_over: bool)
    requires
        old(game).wf(),
    ensures
        final(game).wf(),
        game_over == self_collision(old(game)@.snake),
        final(game)@ == old(game)@.next(gamepad),
{
    if game.check_snake_collision() {
        return true;
    }
    game.update();
    game.input(gamepad);
    if game.frame_count % MOVE_PERIOD == 0 {
        let food_collision = game.check_fruit_collision();
        game.snake.update(food_collision);
        if food_collision {
            game.place_random_fruit();
            if game.fruit_count < u16::MAX {
                game.fruit_count = game.fruit_count + 1;
            }
        }
        game.processing_input = false;
    }
    false
}

} // verus!
