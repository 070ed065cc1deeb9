use vstd::prelude::*;

verus! {

/// A compass heading of the snake.
#[derive(Clone, Copy, Debug, PartialEq, Eq, Structural)]
pub enum Direction {
    North,
    East,
    South,
    West,
}

/// The keys the game reacts to; every other key is `Other`.
#[derive(Clone, Copy, Debug, PartialEq, Eq, Structural)]
pub enum Key {
    W,
    A,
    S,
    D,
    Up,
    Down,
    Left,
    Right,
    Escape,
    P,
    R,
    Other,
}

/// The heading a key asks for, if it is one of the eight movement keys.
pub open spec fn key_direction(key: Key) -> Option<Direction> {
    match key {
        Key::W | Key::Up => Some(Direction::North),
        Key::A | Key::Left => Some(Direction::West),
        Key::S | Key::Down => Some(Direction::South),
        Key::D | Key::Right => Some(Direction::East),
        _ => None,
    }
}

impl Direction {
    /// Horizontal component of the unit step (x grows eastwards).
    pub open spec fn dx(self) -> int {
        match self {
            Direction::East => 1,
            Direction::West => -1,
            _ => 0,
        }
    }

    /// Vertical component of the unit step (y grows southwards).
    pub open spec fn dy(self) -> int {
        match self {
            Direction::South => 1,
            Direction::North => -1,
            _ => 0,
        }
    }

    /// Whether the heading runs along the vertical axis.
    pub open spec fn is_vertical(self) -> bool {
        self == Direction::North || self == Direction::South
    }

    /// Maps a movement key to its heading; any other key gives `None`.
    pub fn from_key(key: Key) -> (r: Option<Direction>)
        ensures
            r == key_direction(key),
    {
        match key {
            Key::W | Key::Up => Some(Direction::North),
            Key::A | Key::Left => Some(Direction::West),
            Key::S | Key::Down => Some(Direction::South),
            Key::D | Key::Right => Some(Direction::East),
            _ => None,
        }
    }

    /// The unit displacement `(dx, dy)` of one step in this heading.
    pub fn to_vector(self) -> (r: (i32, i32))
        ensures
            r.0 == self.dx(),
            r.1 == self.dy(),
    {
        match self {
            Direction::North => (0, -1),
            Direction::East => (1, 0),
            Direction::South => (0, 1),
            Direction::West => (-1, 0),
        }
    }
}

} // verus!
