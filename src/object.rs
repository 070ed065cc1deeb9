use vstd::prelude::*;

use crate::config::{MAP_HEIGHT, MAP_WIDTH};
use crate::direction::Direction;

verus! {

/// A cell coordinate; x grows eastwards, y southwards.
#[derive(Clone, Copy, Debug, PartialEq, Eq, Structural)]
pub struct Point {
    pub x: i32,
    pub y: i32,
}

/// Whether `p` lies on the playing field `[0, MAP_WIDTH) x [0, MAP_HEIGHT)`.
pub open spec fn in_bounds(p: Point) -> bool {
    0 <= p.x < MAP_WIDTH && 0 <= p.y < MAP_HEIGHT
}

/// Whether `p` lies on the playing field or on the ring of cells just around it.
pub open spec fn near_bounds(p: Point) -> bool {
    -1 <= p.x <= MAP_WIDTH && -1 <= p.y <= MAP_HEIGHT
}

impl Point {
    pub fn new(x: i32, y: i32) -> (r: Point)
        ensures
            r == (Point { x, y }),
    {
        Point { x, y }
    }

    /// The point one step away in heading `d`.
    pub open spec fn shifted(self, d: Direction) -> Point {
        Point { x: (self.x + d.dx()) as i32, y: (self.y + d.dy()) as i32 }
    }

    /// Moves one step in heading `d`.
    pub fn offset(self, d: Direction) -> (r: Point)
        requires
            i32::MIN < self.x < i32::MAX,
            i32::MIN < self.y < i32::MAX,
        ensures
            r == self.shifted(d),
            r.x == self.x + d.dx(),
            r.y == self.y + d.dy(),
    {
        let (dx, dy) = d.to_vector();
        Point { x: self.x + dx, y: self.y + dy }
    }

    /// Whether the point lies on the playing field.
    pub fn is_in_bounds(self) -> (r: bool)
        ensures
            r == in_bounds(self),
    {
        0 <= self.x && self.x < MAP_WIDTH && 0 <= self.y && self.y < MAP_HEIGHT
    }
}

/// The colours the game paints with; the terminal chooses the shades.
#[derive(Clone, Copy, Debug, PartialEq, Eq, Structural)]
pub enum Colour {
    /// A living snake.
    Snake,
    /// A dead snake.
    Dead,
    /// The fruit.
    Fruit,
}

/// One renderable cell: where it is, what it shows, and in which colour.
#[derive(Clone, Copy, Debug, PartialEq, Eq, Structural)]
pub struct Object {
    pub position: Point,
    pub glyph: char,
    pub colour: Colour,
}

impl Object {
    pub fn new(position: Point, glyph: char, colour: Colour) -> (r: Object)
        ensures
            r == (Object { position, glyph, colour }),
    {
        Object { position, glyph, colour }
    }
}

} // verus!
