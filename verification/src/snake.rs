//! The snake itself: an ordered body of grid cells from head to tail, a
//! heading, and the grid bounds it moves in.
//!
//! Coordinates follow one consistent convention: a point (x, y) lies on the
//! grid when `x < boundary_x` and `y < boundary_y`, where `boundary_x` is the
//! grid width and `boundary_y` the grid height. Movement wraps toroidally:
//! stepping past an edge re-enters from the opposite edge.

use std::collections::VecDeque;
use vstd::prelude::*;

verus! {

/// A heading the snake can move in.
#[derive(Copy, Clone, PartialEq, Eq, Structural, Debug)]
pub enum Direction {
    Up,
    Down,
    Left,
    Right,
}

/// One grid cell, with `x` growing rightwards and `y` growing downwards.
#[derive(Copy, Clone, PartialEq, Eq, Structural, Debug)]
pub struct Point {
    pub x: usize,
    pub y: usize,
}

/// The heading opposite to `d`.
pub open spec fn opposite(d: Direction) -> Direction {
    match d {
        Direction::Up => Direction::Down,
        Direction::Down => Direction::Up,
        Direction::Left => Direction::Right,
        Direction::Right => Direction::Left,
    }
}

/// One step downwards/rightwards along an axis of length `bound`, wrapping
/// from `bound - 1` back to `0`.
pub open spec fn wrap_inc(v: usize, bound: usize) -> usize {
    (((v + 1) as int) % (bound as int)) as usize
}

/// One step upwards/leftwards along an axis of length `bound`, wrapping from
/// `0` back to `bound - 1`.
pub open spec fn wrap_dec(v: usize, bound: usize) -> usize {
    if v == 0 {
        (bound - 1) as usize
    } else {
        (v - 1) as usize
    }
}

/// The cell one step from `p` in direction `d` on a `bound_x` x `bound_y`
/// grid, with toroidal wrapping at every edge.
pub open spec fn step_point(p: Point, d: Direction, bound_x: usize, bound_y: usize) -> Point {
    match d {
        Direction::Up => Point { x: p.x, y: wrap_dec(p.y, bound_y) },
        Direction::Down => Point { x: p.x, y: wrap_inc(p.y, bound_y) },
        Direction::Left => Point { x: wrap_dec(p.x, bound_x), y: p.y },
        Direction::Right => Point { x: wrap_inc(p.x, bound_x), y: p.y },
    }
}

/// Stepping from a cell on the grid lands on the grid again, and at an edge
/// it lands exactly on the opposite edge.
pub proof fn lemma_step_wraps(p: Point, bound_x: usize, bound_y: usize)
    requires
        p.x < bound_x,
        p.y < bound_y,
    ensures
        step_point(p, Direction::Right, bound_x, bound_y).x < bound_x,
        step_point(p, Direction::Left, bound_x, bound_y).x < bound_x,
        step_point(p, Direction::Down, bound_x, bound_y).y < bound_y,
        step_point(p, Direction::Up, bound_x, bound_y).y < bound_y,
        p.x == bound_x - 1 ==> step_point(p, Direction::Right, bound_x, bound_y).x == 0,
        p.x == 0 ==> step_point(p, Direction::Left, bound_x, bound_y).x == bound_x - 1,
        p.y == bound_y - 1 ==> step_point(p, Direction::Down, bound_x, bound_y).y == 0,
        p.y == 0 ==> step_point(p, Direction::Up, bound_x, bound_y).y == bound_y - 1,
{
    assert((p.x + 1) as int % (bound_x as int) < bound_x);
    assert((p.y + 1) as int % (bound_y as int) < bound_y);
    if p.x == bound_x - 1 {
        assert((p.x + 1) as int % (bound_x as int) == 0) by (nonlinear_arith)
            requires
                p.x + 1 == bound_x,
                bound_x > 0,
        ;
    }
    if p.y == bound_y - 1 {
        assert((p.y + 1) as int % (bound_y as int) == 0) by (nonlinear_arith)
            requires
                p.y + 1 == bound_y,
                bound_y > 0,
        ;
    }
}

/// The snake: body cells ordered head (front) to tail (back), the current
/// heading, and the exclusive grid bounds.
pub struct Snake {
    pub body: VecDeque<Point>,
    pub direction: Direction,
    pub boundary_x: usize,
    pub boundary_y: usize,
}

impl Snake {
    /// `p` lies on this snake's grid.
    pub open spec fn in_bounds(&self, p: Point) -> bool {
        p.x < self.boundary_x && p.y < self.boundary_y
    }

    /// Well-formedness: the body is never empty, the grid is not degenerate,
    /// and every body cell lies on the grid.
    pub open spec fn wf(&self) -> bool {
        &&& self.body@.len() > 0
        &&& self.boundary_x > 0
        &&& self.boundary_y > 0
        &&& forall|i: int| 0 <= i < self.body@.len() ==> self.in_bounds(#[trigger] self.body@[i])
    }

    /// The head cell (front of the body).
    pub open spec fn head(&self) -> Point {
        self.body@[0]
    }

    /// The head equals some other body cell.
    pub open spec fn self_collision(&self) -> bool {
        exists|i: int| 1 <= i < self.body@.len() && #[trigger] self.body@[i] == self.body@[0]
    }

    /// A one-segment snake at `starting_point`, heading right, on a
    /// `width` x `height` grid.
    pub fn new(starting_point: Point, width: usize, height: usize) -> (s: Snake)
        requires
            0 < width,
            0 < height,
            starting_point.x < width,
            starting_point.y < height,
        ensures
            s.wf(),
            s.body@ == seq![starting_point],
            s.direction == Direction::Right,
            s.boundary_x == width,
            s.boundary_y == height,
    {
        let mut body = VecDeque::new();
        body.push_back(starting_point);
        proof {
            assert(body@ =~= seq![starting_point]);
        }
        Snake { body, direction: Direction::Right, boundary_x: width, boundary_y: height }
    }

    /// Advance one step in the current heading: the new head cell is pushed
    /// to the front and the tail cell is dropped, so the whole body moves by
    /// one and the length stays the same.
    pub fn move_forward(&mut self)
        requires
            old(self).wf(),
        ensures
            final(self).wf(),
            final(self).direction == old(self).direction,
            final(self).boundary_x == old(self).boundary_x,
            final(self).boundary_y == old(self).boundary_y,
            final(self).body@ == seq![
                step_point(
                    old(self).head(),
                    old(self).direction,
                    old(self).boundary_x,
                    old(self).boundary_y,
                ),
            ] + old(self).body@.drop_last(),
            final(self).body@.len() == old(self).body@.len(),
    {
        let head = self.body[0];
        let new_head = match self.direction {
            Direction::Up => Point {
                x: head.x,
                y: if head.y == 0 { self.boundary_y - 1 } else { head.y - 1 },
            },
            Direction::Down => Point { x: head.x, y: (head.y + 1) % self.boundary_y },
            Direction::Left => Point {
                x: if head.x == 0 { self.boundary_x - 1 } else { head.x - 1 },
                y: head.y,
            },
            Direction::Right => Point { x: (head.x + 1) % self.boundary_x, y: head.y },
        };
        proof {
            lemma_step_wraps(head, self.boundary_x, self.boundary_y);
            assert(new_head == step_point(head, self.direction, self.boundary_x, self.boundary_y));
        }
        self.body.push_front(new_head);
        self.body.pop_back();
        proof {
            assert(self.body@ =~= seq![new_head] + old(self).body@.drop_last());
            assert forall|i: int| 0 <= i < self.body@.len() implies self.in_bounds(
                #[trigger] self.body@[i],
            ) by {
                if i > 0 {
                    assert(self.body@[i] == old(self).body@[i - 1]);
                }
            }
        }
    }

    /// Grow by one: the tail cell is duplicated and appended, so the length
    /// rises by one and no existing cell (the head included) moves.
    pub fn grow(&mut self)
        requires
            old(self).wf(),
        ensures
            final(self).wf(),
            final(self).direction == old(self).direction,
            final(self).boundary_x == old(self).boundary_x,
            final(self).boundary_y == old(self).boundary_y,
            final(self).body@ == old(self).body@.push(old(self).body@.last()),
            final(self).body@.len() == old(self).body@.len() + 1,
            final(self).head() == old(self).head(),
    {
        let n = self.body.len();
        let tail = self.body[n - 1];
        self.body.push_back(tail);
    }

    /// Set the heading to `new_direction`, unless that is the exact opposite
    /// of the current heading, in which case nothing changes (a snake cannot
    /// reverse into its own neck).
    pub fn change_direction(&mut self, new_direction: Direction)
        ensures
            final(self).body@ == old(self).body@,
            final(self).boundary_x == old(self).boundary_x,
            final(self).boundary_y == old(self).boundary_y,
            final(self).direction == (if new_direction == opposite(old(self).direction) {
                old(self).direction
            } else {
                new_direction
            }),
            old(self).wf() ==> final(self).wf(),
    {
        if self.direction == Direction::Up && new_direction == Direction::Down
            || self.direction == Direction::Down && new_direction == Direction::Up
            || self.direction == Direction::Left && new_direction == Direction::Right
            || self.direction == Direction::Right && new_direction == Direction::Left {
            return;
        }
        self.direction = new_direction;
    }

    /// Whether the head cell equals any other body cell.
    pub fn check_collision(&self) -> (r: bool)
        requires
            self.wf(),
        ensures
            r == self.self_collision(),
    {
        let head = self.body[0];
        let n = self.body.len();
        let mut i: usize = 1;
        while i < n
            invariant
                1 <= i <= n,
                n == self.body@.len(),
                head == self.body@[0],
                forall|j: int| 1 <= j < i ==> #[trigger] self.body@[j] != self.body@[0],
            decreases n - i,
        {
            if self.body[i] == head {
                return true;
            }
            i = i + 1;
        }
        false
    }

    /// Whether `p` equals any body cell.
    pub fn occupies(&self, p: Point) -> (r: bool)
        ensures
            r == self.body@.contains(p),
    {
        let n = self.body.len();
        let mut i: usize = 0;
        while i < n
            invariant
                i <= n,
                n == self.body@.len(),
                forall|j: int| 0 <= j < i ==> #[trigger] self.body@[j] != p,
            decreases n - i,
        {
            if self.body[i] == p {
                return true;
            }
            i = i + 1;
        }
        false
    }
}

} // verus!

