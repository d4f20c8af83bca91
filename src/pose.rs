use vstd::prelude::*;

verus! {

/// Largest distance on each axis at which two poses still count as the same place.
pub const COORDINATE_TOLERANCE: u32 = 25;

/// Largest heading difference, in degrees, at which two poses still face the same way.
pub const HEADING_TOLERANCE: u16 = 10;

/// Largest heading, in degrees, that a pose may be built with.
pub const MAX_HEADING: u16 = 360;

/// The mathematical picture of a pose: optional name, coordinates and heading.
pub ghost struct PoseView {
    pub name: Option<Seq<char>>,
    pub x: int,
    pub y: int,
    pub theta: int,
}

/// A 2D pose of the robot; the heading is in degrees.
#[derive(Debug, Clone, PartialEq)]
pub struct Position {
    pub position_name: Option<String>,
    pub x_coordinate: i32,
    pub y_coordinate: i32,
    pub theta: u16,
}

/// The view of an optional string.
pub open spec fn name_view(n: Option<String>) -> Option<Seq<char>> {
    match n {
        Some(s) => Some(s@),
        None => None,
    }
}

impl View for Position {
    type V = PoseView;

    open spec fn view(&self) -> PoseView {
        PoseView {
            name: name_view(self.position_name),
            x: self.x_coordinate as int,
            y: self.y_coordinate as int,
            theta: self.theta as int,
        }
    }
}

/// The absolute difference of two integers.
pub open spec fn dist(a: int, b: int) -> int {
    if a >= b {
        a - b
    } else {
        b - a
    }
}

/// Two poses stand within the coordinate tolerance of each other.
pub open spec fn near_coordinates(a: PoseView, b: PoseView) -> bool {
    dist(a.x, b.x) <= COORDINATE_TOLERANCE && dist(a.y, b.y) <= COORDINATE_TOLERANCE
}

/// Two poses face within the heading tolerance of each other.
pub open spec fn near_heading(a: PoseView, b: PoseView) -> bool {
    dist(a.theta, b.theta) <= HEADING_TOLERANCE
}

/// Fuzzy pose equality: same place and same facing, up to the tolerances.
pub open spec fn near_pose(a: PoseView, b: PoseView) -> bool {
    near_coordinates(a, b) && near_heading(a, b)
}

/// The absolute difference of two `i32` values, which always fits in a `u32`.
pub fn abs_diff_i32(a: i32, b: i32) -> (r: u32)
    ensures
        r as int == dist(a as int, b as int),
{
    if a >= b {
        ((a as i64) - (b as i64)) as u32
    } else {
        ((b as i64) - (a as i64)) as u32
    }
}

/// The absolute difference of two `u16` values.
pub fn abs_diff_u16(a: u16, b: u16) -> (r: u16)
    ensures
        r as int == dist(a as int, b as int),
{
    if a >= b {
        a - b
    } else {
        b - a
    }
}

/// Copies an optional string, keeping its contents.
pub fn copy_name(n: &Option<String>) -> (r: Option<String>)
    ensures
        r == *n,
{
    match n {
        Some(s) => Some(s.clone()),
        None => None,
    }
}

impl Position {
    /// The heading lies within the range a pose may be built with.
    pub open spec fn wf(&self) -> bool {
        self.theta <= MAX_HEADING
    }

    /// Builds a pose; fails when the heading exceeds 360 degrees.
    pub fn new(position_name: Option<String>, x_coordinate: i32, y_coordinate: i32, orientation: u16) -> (r: Result<Position, RobotError>)
        ensures
            orientation <= MAX_HEADING ==> r == Ok::<Position, RobotError>(Position {
                position_name,
                x_coordinate,
                y_coordinate,
                theta: orientation,
            }),
            orientation > MAX_HEADING ==> r == Err::<Position, RobotError>(RobotError::InvalidPose),
            r is Ok ==> r->Ok_0.wf(),
    {
        if orientation > MAX_HEADING {
            return Err(RobotError::InvalidPose);
        }
        Ok(Position { position_name, x_coordinate, y_coordinate, theta: orientation })
    }

    /// A copy of this pose with the same name, coordinates and heading.
    pub fn duplicate(&self) -> (r: Position)
        ensures
            r == *self,
    {
        Position {
            position_name: copy_name(&self.position_name),
            x_coordinate: self.x_coordinate,
            y_coordinate: self.y_coordinate,
            theta: self.theta,
        }
    }

    pub fn get_position_name(&self) -> (r: Option<String>)
        ensures
            r == self.position_name,
    {
        copy_name(&self.position_name)
    }

    pub fn get_x_coordinate(&self) -> (r: i32)
        ensures
            r == self.x_coordinate,
    {
        self.x_coordinate
    }

    pub fn get_y_coordinate(&self) -> (r: i32)
        ensures
            r == self.y_coordinate,
    {
        self.y_coordinate
    }

    pub fn get_theta(&self) -> (r: u16)
        ensures
            r == self.theta,
    {
        self.theta
    }

    /// Rebinds the name; coordinates and heading stay.
    pub fn set_position_name(&mut self, position_name: String)
        ensures
            *final(self) == (Position { position_name: Some(position_name), ..*old(self) }),
    {
        self.position_name = Some(position_name);
    }

    /// Fuzzy equality on coordinates and heading.
    pub fn equals(&self, other: &Position) -> (r: bool)
        ensures
            r == near_pose(self@, other@),
    {
        abs_diff_i32(self.x_coordinate, other.x_coordinate) <= COORDINATE_TOLERANCE
            && abs_diff_i32(self.y_coordinate, other.y_coordinate) <= COORDINATE_TOLERANCE
            && abs_diff_u16(self.theta, other.theta) <= HEADING_TOLERANCE
    }

    /// Fuzzy equality on coordinates alone.
    pub fn equals_coordinates(&self, other: &Position) -> (r: bool)
        ensures
            r == near_coordinates(self@, other@),
    {
        abs_diff_i32(self.x_coordinate, other.x_coordinate) <= COORDINATE_TOLERANCE
            && abs_diff_i32(self.y_coordinate, other.y_coordinate) <= COORDINATE_TOLERANCE
    }

    /// Fuzzy equality on heading alone.
    pub fn equals_theta(&self, other: &Position) -> (r: bool)
        ensures
            r == near_heading(self@, other@),
    {
        abs_diff_u16(self.theta, other.theta) <= HEADING_TOLERANCE
    }
}

/// What can go wrong when building poses and routes.
#[derive(Debug, Clone, Copy, PartialEq, Eq, Structural)]
pub enum RobotError {
    /// A heading above 360 degrees.
    InvalidPose,
    /// No route is stored under the requested key.
    RouteNotFound,
    /// A route with no moves.
    InvalidRoute,
    /// Neither end of a route is a known position.
    UnknownEndpoints,
    /// No stored position matches the query.
    PositionNotFound,
    /// A coordinate of the resolved route does not fit in an `i32`.
    CoordinateOutOfRange,
}

} // verus!
