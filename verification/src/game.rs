//! The game: a snake, the current food cell, and the grid dimensions.
//!
//! Food is placed by random sampling. A bounded number of uniform draws is
//! tried first; if every draw lands on the snake, a deterministic scan of the
//! grid finds a free cell, so placement terminates even though single draws
//! may collide. Only when the snake covers the whole grid is there no free
//! cell at all; the game is already lost then, and placement falls back to
//! the origin.

use vstd::prelude::*;

use crate::snake::Direction;
use crate::snake::Point;
use crate::snake::Snake;
use crate::snake::step_point;

verus! {

/// How many random draws food placement tries before scanning the grid.
pub const FOOD_SAMPLE_TRIES: usize = 64;

/// Some cell of the `width` x `height` grid is not covered by `body`.
pub open spec fn has_free_cell(body: Seq<Point>, width: usize, height: usize) -> bool {
    exists|x: usize, y: usize| x < width && y < height && !body.contains((Point { x, y }))
}

/// Relies on rand's `thread_rng` and `Rng::gen_range` on the range
/// `0..bound`: the draw returns a value of that half-open range, and panics
/// only when the range is empty, which `bound > 0` rules out.
#[verifier::external_body]
fn random_below(bound: usize) -> (r: usize)
    requires
        bound > 0,
    ensures
        r < bound,
{
    rand::Rng::gen_range(&mut rand::thread_rng(), 0..bound)
}

/// A running game: one snake, one food cell, and the grid it plays on.
pub struct Game {
    pub snake: Snake,
    pub food: Point,
    pub width: usize,
    pub height: usize,
}

impl Game {
    /// Well-formedness: the snake is well formed on this game's grid, and the
    /// food lies on the grid.
    pub open spec fn wf(&self) -> bool {
        &&& self.snake.wf()
        &&& self.snake.boundary_x == self.width
        &&& self.snake.boundary_y == self.height
        &&& self.food.x < self.width
        &&& self.food.y < self.height
    }

    /// A fresh game on a `width` x `height` grid: a one-segment snake at the
    /// grid centre, heading right, and a first food cell off the snake.
    pub fn new(width: usize, height: usize) -> (g: Game)
        requires
            0 < width,
            0 < height,
        ensures
            g.wf(),
            g.width == width,
            g.height == height,
            g.snake.body@ == seq![(Point { x: width / 2, y: height / 2 })],
            g.snake.direction == Direction::Right,
            has_free_cell(g.snake.body@, width, height) ==> !g.snake.body@.contains(g.food),
    {
        let starting_point = Point { x: width / 2, y: height / 2 };
        let snake = Snake::new(starting_point, width, height);
        let food = Game::generate_food(&snake, width, height);
        Game { snake, food, width, height }
    }

    /// A food cell for `snake` on a `width` x `height` grid: uniform draws
    /// first, then a grid scan. The result is on the grid, and off the snake
    /// whenever any free cell exists.
    pub fn generate_food(snake: &Snake, width: usize, height: usize) -> (food: Point)
        requires
            0 < width,
            0 < height,
        ensures
            food.x < width,
            food.y < height,
            has_free_cell(snake.body@, width, height) ==> !snake.body@.contains(food),
    {
        let mut tries: usize = 0;
        while tries < FOOD_SAMPLE_TRIES
            invariant
                0 < width,
                0 < height,
            decreases FOOD_SAMPLE_TRIES - tries,
        {
            let food = Point { x: random_below(width), y: random_below(height) };
            if !snake.occupies(food) {
                return food;
            }
            tries = tries + 1;
        }
        match Game::find_free_cell(snake, width, height) {
            Some(food) => food,
            None => Point { x: 0, y: 0 },
        }
    }

    /// The first free cell of the grid in row order, or `None` when the
    /// snake covers every cell.
    pub fn find_free_cell(snake: &Snake, width: usize, height: usize) -> (r: Option<Point>)
        requires
            0 < width,
            0 < height,
        ensures
            match r {
                Some(p) => p.x < width && p.y < height && !snake.body@.contains(p),
                None => !has_free_cell(snake.body@, width, height),
            },
    {
        let mut y: usize = 0;
        while y < height
            invariant
                y <= height,
                forall|xx: usize, yy: usize|
                    yy < y && xx < width ==> #[trigger] snake.body@.contains((Point {
                        x: xx,
                        y: yy,
                    })),
            decreases height - y,
        {
            let mut x: usize = 0;
            while x < width
                invariant
                    x <= width,
                    y < height,
                    forall|xx: usize, yy: usize|
                        yy < y && xx < width ==> #[trigger] snake.body@.contains((Point {
                            x: xx,
                            y: yy,
                        })),
                    forall|xx: usize|
                        xx < x ==> #[trigger] snake.body@.contains((Point { x: xx, y: y })),
                decreases width - x,
            {
                let p = Point { x, y };
                if !snake.occupies(p) {
                    return Some(p);
                }
                x = x + 1;
            }
            y = y + 1;
        }
        None
    }

    /// One tick: the snake advances one step; if its new head lands on the
    /// food, the snake grows by one and fresh food is placed off the now
    /// longer body.
    pub fn update(&mut self)
        requires
            old(self).wf(),
        ensures
            final(self).wf(),
            final(self).width == old(self).width,
            final(self).height == old(self).height,
            final(self).snake.direction == old(self).snake.direction,
            final(self).snake.head() == step_point(
                old(self).snake.head(),
                old(self).snake.direction,
                old(self).width,
                old(self).height,
            ),
            ({
                let moved = seq![
                    step_point(
                        old(self).snake.head(),
                        old(self).snake.direction,
                        old(self).width,
                        old(self).height,
                    ),
                ] + old(self).snake.body@.drop_last();
                if moved[0] == old(self).food {
                    &&& final(self).snake.body@ == moved.push(moved.last())
                    &&& has_free_cell(final(self).snake.body@, old(self).width, old(self).height)
                        ==> !final(self).snake.body@.contains(final(self).food)
                } else {
                    &&& final(self).snake.body@ == moved
                    &&& final(self).food == old(self).food
                }
            }),
    {
        self.snake.move_forward();
        if self.snake.body[0] == self.food {
            self.snake.grow();
            self.food = Game::generate_food(&self.snake, self.width, self.height);
        }
    }

    /// Whether the game has ended: the snake has run into itself.
    pub fn is_game_over(&self) -> (r: bool)
        requires
            self.wf(),
        ensures
            r == self.snake.self_collision(),
    {
        self.snake.check_collision()
    }
}

} // verus!
