//! The game: a snake, the food it is after and the score, on a grid of fixed
//! size. The driver asks for turns, ticks the game and reads what came of it.

use crate::config::{Config, ConfigError};
use crate::food::{grid_full, Food, FoodPlacementExhausted};
use crate::grid::Point;
use crate::snake::{
    lemma_advance_keeps_contiguous, lemma_advance_keeps_shape, lemma_grow_keeps_body,
    lemma_never_reverses, lemma_room_suffices, Snake, SnakeView,
};
use rand::rngs::StdRng;
use vstd::arithmetic::div_mod::lemma_small_mod;
use vstd::prelude::*;

verus! {

/// What a tick did.
#[derive(Debug, PartialEq, Eq, Clone, Copy, Structural)]
pub enum Tick {
    /// The snake moved one cell.
    Moved,
    /// The snake moved onto the food, grew, and new food was placed.
    Ate,
    /// The snake moved onto the food and grew, and now covers the whole
    /// grid: there is no cell left for food.
    BoardFull,
    /// A segment has reached the edge of what coordinates can hold. Nothing
    /// changed.
    OutOfRange,
}

/// How many animation frames pass between two ticks.
pub const FRAMES_PER_TICK: u64 = 20;

/// What one animation frame came to.
#[derive(Debug, PartialEq, Eq, Clone, Copy, Structural)]
pub struct Frame {
    /// What the tick did, in a frame that began with one.
    pub tick: Option<Tick>,
    /// How many frames have passed since the last tick.
    pub step: u64,
    /// The head is on another segment: the game is lost.
    pub lost: bool,
}

/// The state of a game.
#[derive(Debug)]
pub struct Core {
    pub snake: Snake,
    pub food: Food,
    /// The number of times the snake has eaten.
    pub score: usize,
    /// The number of cells a side of the grid.
    pub size: i32,
    /// Where the game draws its food from.
    pub rng: StdRng,
}

/// What a `Core` stands for in contracts. The random generator is no part
/// of it.
pub struct GameView {
    pub snake: SnakeView,
    pub food: Point,
    pub score: nat,
    /// The number of cells a side of the grid.
    pub size: int,
}

impl View for Core {
    type V = GameView;

    open spec fn view(&self) -> GameView {
        GameView {
            snake: self.snake@,
            food: self.food@,
            score: self.score as nat,
            size: self.size as int,
        }
    }
}

impl GameView {
    /// What holds of every game: the grid has room for the first snake, the
    /// body has its shape and hangs together, the pending heading does not
    /// reverse the current one, and the food lies on the grid.
    pub open spec fn well_formed(self) -> bool {
        &&& 2 <= self.size
        &&& self.snake.well_formed()
        &&& self.snake.contiguous()
        &&& self.snake.steady()
        &&& self.food.in_grid(self.size)
    }

    /// The head is on the food's cell.
    pub open spec fn head_on_food(self) -> bool {
        self.snake.cells[0].pos.wrap(self.size) == self.food
    }

    /// No segment is on the food's cell.
    pub open spec fn food_is_clear(self) -> bool {
        !self.snake.occupied(self.size).contains(self.food)
    }

    /// The score after one more point. It stops at the largest value it can
    /// hold.
    pub open spec fn next_score(self) -> nat {
        if self.score < usize::MAX {
            self.score + 1
        } else {
            self.score
        }
    }

    /// The next move of the snake takes its head to the food's cell.
    pub open spec fn reaches_food(self) -> bool {
        (GameView { snake: self.snake.advanced(), ..self }).head_on_food()
    }

    /// A tick of this game can end as `tick` says and leave the game `after`.
    ///
    /// Without room for a step, nothing changes. With room the snake moves.
    /// If that takes its head to the food, it grows and a point is counted;
    /// then either new food lies on a free cell of the grid, or the snake
    /// covers the grid and the food stays.
    pub open spec fn tick_gives(self, tick: Tick, after: GameView) -> bool {
        match tick {
            Tick::OutOfRange => !self.snake.has_room() && after == self,
            Tick::Moved => {
                &&& self.snake.has_room()
                &&& !self.reaches_food()
                &&& after == self.ticked(None)
            },
            Tick::Ate => {
                &&& self.snake.has_room()
                &&& self.reaches_food()
                &&& after == self.ticked(Some(after.food))
                &&& after.food.in_grid(after.size)
                &&& after.food_is_clear()
            },
            Tick::BoardFull => {
                &&& self.snake.has_room()
                &&& self.reaches_food()
                &&& after == self.ticked(None)
                &&& grid_full(after.size, after.snake.occupied(after.size))
            },
        }
    }

    /// The game after a tick in which the snake has room to move. `fresh` is
    /// what the placement of new food gave, should the head reach the food:
    /// the new cell, or `None` where the grown snake leaves no cell free.
    pub open spec fn ticked(self, fresh: Option<Point>) -> GameView {
        let moved = GameView { snake: self.snake.advanced(), ..self };
        if self.reaches_food() {
            GameView {
                snake: moved.snake.grown(),
                score: self.next_score(),
                food: match fresh {
                    Some(cell) => cell,
                    None => self.food,
                },
                ..self
            }
        } else {
            moved
        }
    }
}

impl Core {
    /// A new game on the grid that `config` describes: the first snake, no
    /// points, and food on a free cell. `rng` is where the game draws its
    /// food from, from now on.
    pub fn new(config: &Config, rng: StdRng) -> (made: Result<Core, ConfigError>)
        ensures
            match made {
                Ok(core) => {
                    &&& config.checked_grid_size() == Ok::<int, ConfigError>(core@.size)
                    &&& core@.snake == SnakeView::initial()
                    &&& core@.score == 0
                    &&& core@.well_formed()
                    &&& core@.food_is_clear()
                },
                Err(e) => config.checked_grid_size() == Err::<int, ConfigError>(e),
            },
    {
        let size = match config.grid_size() {
            Ok(size) => size,
            Err(e) => {
                return Err(e);
            },
        };
        let mut rng = rng;
        let snake = Snake::new();
        let occupied = snake.occupied_cells(size);
        proof {
            // The first snake lies in the row y = 0, so the cell below the
            // origin is free and the placement cannot fail.
            let free = Point { x: 0, y: 1 };
            lemma_small_mod(0, size as nat);
            assert(!snake@.occupied(size as int).contains(free));
        }
        match Food::place(size, &occupied, &mut rng) {
            Ok(food) => Ok(Core { snake, food, score: 0, size, rng }),
            Err(_) => {
                assert(false);
                Err(ConfigError::TooSmall)
            },
        }
    }

    /// Whether the head is on the food's cell.
    pub fn check_eating_condition(&self) -> (eating: bool)
        requires
            self.size > 0,
            self.snake.cells@.len() > 0,
        ensures
            eating == self@.head_on_food(),
    {
        self.snake.get_head().coords.translate(self.size) == self.food.coords
    }

    /// Whether the head is on the grid cell of another segment.
    pub fn check_collision(&self) -> (hit: bool)
        requires
            self.size > 0,
        ensures
            hit == self@.snake.self_collision(self@.size),
    {
        self.snake.detect_self_collision(self.size)
    }

    /// Counts one more point. The score stops at the largest value it can
    /// hold.
    pub fn inc_score(&mut self)
        ensures
            final(self)@ == (GameView { score: old(self)@.next_score(), ..old(self)@ }),
    {
        if let Some(more) = self.score.checked_add(1) {
            self.score = more;
        }
    }

    /// Puts food on a free cell, drawn at random. Where the snake covers the
    /// whole grid, the food stays where it is and the call fails.
    pub fn generate_food(&mut self) -> (placed: Result<(), FoodPlacementExhausted>)
        requires
            old(self).size > 0,
        ensures
            placed.is_err() <==> grid_full(
                old(self)@.size,
                old(self)@.snake.occupied(old(self)@.size),
            ),
            final(self)@ == (GameView { food: final(self)@.food, ..old(self)@ }),
            match placed {
                Ok(_) => final(self)@.food.in_grid(final(self)@.size) && final(self)@.food_is_clear(),
                Err(_) => final(self)@.food == old(self)@.food,
            },
    {
        let occupied = self.snake.occupied_cells(self.size);
        match Food::place(self.size, &occupied, &mut self.rng) {
            Ok(food) => {
                self.food = food;
                Ok(())
            },
            Err(e) => Err(e),
        }
    }

    /// Plays one tick: the snake moves; if its head then is on the food, it
    /// grows, a point is counted and new food is placed.
    ///
    /// Where a segment has no room left in its coordinates, nothing happens.
    pub fn move_snake(&mut self) -> (tick: Tick)
        requires
            old(self).size > 0,
            old(self).snake.cells@.len() > 0,
        ensures
            old(self)@.tick_gives(tick, final(self)@),
            old(self)@.well_formed() ==> final(self)@.well_formed(),
    {
        if !self.snake.has_room() {
            return Tick::OutOfRange;
        }
        proof {
            lemma_room_suffices(self.snake@);
            lemma_advance_keeps_shape(self.snake@);
            if self.snake@.contiguous() {
                lemma_advance_keeps_contiguous(self.snake@);
            }
            if self.snake@.steady() {
                lemma_never_reverses(self.snake@, self.snake.direction);
            }
        }
        self.snake.advance_tick();
        if !self.check_eating_condition() {
            return Tick::Moved;
        }
        proof {
            lemma_grow_keeps_body(self.snake@);
        }
        self.snake.grow();
        self.inc_score();
        match self.generate_food() {
            Ok(()) => Tick::Ate,
            Err(_) => Tick::BoardFull,
        }
    }

    /// Plays the animation frame with number `frame`: every
    /// `FRAMES_PER_TICK`th frame begins with a tick, the others leave the
    /// game as it is. Says how far the frame is into the slide from cell to
    /// cell, and whether the game is lost.
    pub fn on_frame(&mut self, frame: u64) -> (shown: Frame)
        requires
            old(self).size > 0,
            old(self).snake.cells@.len() > 0,
        ensures
            shown.step == frame % FRAMES_PER_TICK,
            match shown.tick {
                Some(tick) => shown.step == 0 && old(self)@.tick_gives(tick, final(self)@),
                None => shown.step != 0 && final(self)@ == old(self)@,
            },
            shown.lost == final(self)@.snake.self_collision(final(self)@.size),
            old(self)@.well_formed() ==> final(self)@.well_formed(),
    {
        let step = frame % FRAMES_PER_TICK;
        let tick = if step == 0 {
            Some(self.move_snake())
        } else {
            None
        };
        Frame { tick, step, lost: self.check_collision() }
    }
}

} // verus!
