//! Grid coordinates and the four directions of travel.

use crate::rng::random_u32;
use vstd::prelude::*;

verus! {

/// A cell of the grid. Two points are equal when their coordinates are.
#[derive(PartialEq, Eq, Structural, Debug)]
pub struct Point {
    pub x: i32,
    pub y: i32,
}

impl Clone for Point {
    fn clone(&self) -> (copy: Self)
        ensures
            copy == *self,
    {
        Point { x: self.x, y: self.y }
    }
}

impl Copy for Point {

}

impl Point {
    /// The cell that two drawn numbers stand for on a grid of the given
    /// size: each coordinate is the remainder of its number by its side.
    pub open spec fn at_draws(rx: int, ry: int, width: int, height: int) -> Point {
        Point { x: (rx % width) as i32, y: (ry % height) as i32 }
    }

    /// Turns two drawn numbers into a cell of the grid.
    pub fn from_draws(rx: u32, ry: u32, width: u32, height: u32) -> (p: Point)
        requires
            0 < width <= i32::MAX,
            0 < height <= i32::MAX,
        ensures
            p == Point::at_draws(rx as int, ry as int, width as int, height as int),
            0 <= p.x < width,
            0 <= p.y < height,
    {
        Point { x: (rx % width) as i32, y: (ry % height) as i32 }
    }

    /// Draws a cell of the grid at random: two numbers, one for each
    /// coordinate.
    pub fn random(width: u32, height: u32) -> (p: Point)
        requires
            0 < width <= i32::MAX,
            0 < height <= i32::MAX,
        ensures
            0 <= p.x < width,
            0 <= p.y < height,
    {
        let rx = random_u32();
        let ry = random_u32();
        Point::from_draws(rx, ry, width, height)
    }
}

/// The direction in which the head travels.
#[derive(PartialEq, Eq, Structural, Clone, Copy, Debug)]
pub enum Direction {
    Up,
    Down,
    Left,
    Right,
}

impl Direction {
    /// `Left` and `Right` make up the horizontal axis.
    pub open spec fn horizontal(self) -> bool {
        self == Direction::Left || self == Direction::Right
    }

    /// `Up` and `Down` make up the vertical axis.
    pub open spec fn vertical(self) -> bool {
        self == Direction::Up || self == Direction::Down
    }

    /// Whether two directions lie on one axis: they are equal or opposite.
    pub open spec fn same_axis(self, other: Direction) -> bool {
        (self.horizontal() && other.horizontal()) || (self.vertical() && other.vertical())
    }

    /// The change of `x` in one step in this direction.
    pub open spec fn dx(self) -> int {
        match self {
            Direction::Right => 1,
            Direction::Left => -1,
            _ => 0,
        }
    }

    /// The change of `y` in one step in this direction; `y` grows downwards.
    pub open spec fn dy(self) -> int {
        match self {
            Direction::Down => 1,
            Direction::Up => -1,
            _ => 0,
        }
    }

    /// Whether `direction` lies on the horizontal axis.
    pub fn is_horiz(direction: &Direction) -> (b: bool)
        ensures
            b == direction.horizontal(),
    {
        *direction == Direction::Right || *direction == Direction::Left
    }

    /// Whether `direction` lies on the vertical axis.
    pub fn is_vert(direction: &Direction) -> (b: bool)
        ensures
            b == direction.vertical(),
    {
        *direction == Direction::Up || *direction == Direction::Down
    }
}

} // verus!
