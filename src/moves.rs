use vstd::prelude::*;

verus! {

/// A movement relative to the robot's own heading.
#[derive(Debug, Clone, Copy, PartialEq, Eq, Structural)]
pub enum Direction {
    NoMovement,
    Forward,
    Right,
    Backward,
    Left,
    RotateLeft,
    RotateRight,
}

/// One segment of a recorded route: a direction and a magnitude
/// (a distance, or degrees for the two rotations).
#[derive(Debug, Clone, Copy, PartialEq, Eq, Structural)]
pub struct DirectionMove {
    pub direction_type: Direction,
    pub value: i32,
}

impl DirectionMove {
    pub fn new(direction_type: Direction, value: i32) -> (r: DirectionMove)
        ensures
            r == (DirectionMove { direction_type, value }),
    {
        DirectionMove { direction_type, value }
    }

    pub fn get_direction_type(&self) -> (r: Direction)
        ensures
            r == self.direction_type,
    {
        self.direction_type
    }

    pub fn get_value(&self) -> (r: i32)
        ensures
            r == self.value,
    {
        self.value
    }

    /// Builds a move from a direction and a magnitude.
    pub fn from_pair(item: (Direction, i32)) -> (r: DirectionMove)
        ensures
            r == (DirectionMove { direction_type: item.0, value: item.1 }),
    {
        DirectionMove { direction_type: item.0, value: item.1 }
    }
}

/// The index of a translation in the clockwise cycle Forward, Right, Backward, Left;
/// -1 for NoMovement, 4 and 5 for the two rotations.
pub open spec fn direction_index(d: Direction) -> int {
    match d {
        Direction::Forward => 0,
        Direction::Right => 1,
        Direction::Backward => 2,
        Direction::Left => 3,
        Direction::RotateLeft => 4,
        Direction::RotateRight => 5,
        Direction::NoMovement => -1,
    }
}

/// The translation with a given index in the clockwise cycle; anything else is no movement.
pub open spec fn direction_of_index(v: int) -> Direction {
    if v == 0 {
        Direction::Forward
    } else if v == 1 {
        Direction::Right
    } else if v == 2 {
        Direction::Backward
    } else if v == 3 {
        Direction::Left
    } else {
        Direction::NoMovement
    }
}

impl Direction {
    /// The translation with index `value` in the clockwise cycle.
    pub fn from_value(value: i16) -> (r: Direction)
        ensures
            r == direction_of_index(value as int),
    {
        match value {
            0 => Direction::Forward,
            1 => Direction::Right,
            2 => Direction::Backward,
            3 => Direction::Left,
            _ => Direction::NoMovement,
        }
    }

    /// The index of a direction in the clockwise cycle.
    pub fn to_value(direction: Direction) -> (r: i16)
        ensures
            r as int == direction_index(direction),
    {
        match direction {
            Direction::Forward => 0,
            Direction::Right => 1,
            Direction::Backward => 2,
            Direction::Left => 3,
            Direction::RotateLeft => 4,
            Direction::RotateRight => 5,
            Direction::NoMovement => -1,
        }
    }
}

/// A heading snapped to the four compass points.
#[derive(Debug, Clone, Copy, PartialEq, Eq, Structural)]
pub enum Heading {
    North,
    East,
    South,
    West,
    NoClearOrientation,
}

/// The compass point of a heading in degrees, taken modulo 360.
pub open spec fn heading_of(deg: int) -> Heading {
    if deg % 360 == 0 {
        Heading::North
    } else if deg % 360 == 90 {
        Heading::East
    } else if deg % 360 == 180 {
        Heading::South
    } else if deg % 360 == 270 {
        Heading::West
    } else {
        Heading::NoClearOrientation
    }
}

impl Heading {
    pub fn from_degrees(deg: u16) -> (r: Heading)
        ensures
            r == heading_of(deg as int),
    {
        match deg % 360 {
            0 => Heading::North,
            90 => Heading::East,
            180 => Heading::South,
            270 => Heading::West,
            _ => Heading::NoClearOrientation,
        }
    }
}

} // verus!
