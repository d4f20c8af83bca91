use vstd::prelude::*;
use crate::chassis::MotorOrders;
use crate::nav_states::{nav_step, NavComputerStates, LANE_SEEK_NAME};
use crate::pose::{near_pose, Position, RobotError, MAX_HEADING};
use crate::route_math::{is_cardinal, world_offset};

verus! {

/// How far the robot creeps forward per attempt while seeking a lane.
pub const LANE_SEEK_STEP: i32 = 100;

/// How far the robot strafes away from an instrument after working at it.
pub const UNDOCK_DISTANCE: i32 = 500;

/// The pose displaced from `p` by `ahead` along its heading and `leftward` across it;
/// at a heading that is not cardinal the coordinates stay.
pub open spec fn displaced(p: Position, ahead: int, leftward: int) -> (int, int) {
    if is_cardinal(p.theta as int) {
        let d = world_offset(p.theta as int, ahead, leftward);
        (p.x_coordinate + d.0, p.y_coordinate + d.1)
    } else {
        (p.x_coordinate as int, p.y_coordinate as int)
    }
}

/// The pose displaced from `p` can be built.
pub open spec fn displacement_fits(p: Position, ahead: int, leftward: int) -> bool {
    let (x, y) = displaced(p, ahead, leftward);
    i32::MIN <= x <= i32::MAX && i32::MIN <= y <= i32::MAX && p.theta <= MAX_HEADING
}

/// What a failed displacement reports.
pub open spec fn displacement_error(p: Position) -> RobotError {
    if p.theta > MAX_HEADING {
        RobotError::InvalidPose
    } else {
        RobotError::CoordinateOutOfRange
    }
}

/// Builds the pose displaced from `p`, keeping its heading and taking the given name.
fn displace(p: &Position, ahead: i64, leftward: i64, name: Option<String>) -> (r: Result<Position, RobotError>)
    requires
        -0x1_0000_0000 <= ahead <= 0x1_0000_0000,
        -0x1_0000_0000 <= leftward <= 0x1_0000_0000,
    ensures
        r is Ok <==> displacement_fits(*p, ahead as int, leftward as int),
        r is Ok ==> r->Ok_0 == (Position {
            position_name: name,
            x_coordinate: displaced(*p, ahead as int, leftward as int).0 as i32,
            y_coordinate: displaced(*p, ahead as int, leftward as int).1 as i32,
            theta: p.theta,
        }),
        r is Err ==> r->Err_0 == displacement_error(*p),
{
    if p.theta > MAX_HEADING {
        return Err(RobotError::InvalidPose);
    }
    let t = p.theta;
    let (dx, dy): (i64, i64) = if t == 0 {
        (ahead, leftward)
    } else if t == 90 {
        (leftward, -ahead)
    } else if t == 180 {
        (-ahead, -leftward)
    } else if t == 270 {
        (-leftward, ahead)
    } else {
        (0, 0)
    };
    let x = p.x_coordinate as i64 + dx;
    let y = p.y_coordinate as i64 + dy;
    if x < i32::MIN as i64 || x > i32::MAX as i64 || y < i32::MIN as i64 || y > i32::MAX as i64 {
        return Err(RobotError::CoordinateOutOfRange);
    }
    Ok(Position { position_name: name, x_coordinate: x as i32, y_coordinate: y as i32, theta: p.theta })
}

/// The target for creeping `distance` forward along a rack: it carries the
/// lane-seeking name, which selects the gentle approach speeds.
pub fn go_forward_slowly_target(current: &Position, distance: i32) -> (r: Result<Position, RobotError>)
    ensures
        r is Ok <==> displacement_fits(*current, distance as int, 0),
        r is Ok ==> r->Ok_0@.name == Some(LANE_SEEK_NAME@),
        r is Ok ==> r->Ok_0.x_coordinate == displaced(*current, distance as int, 0).0,
        r is Ok ==> r->Ok_0.y_coordinate == displaced(*current, distance as int, 0).1,
        r is Ok ==> r->Ok_0.theta == current.theta,
        r is Err ==> r->Err_0 == displacement_error(*current),
{
    displace(current, distance as i64, 0, Some(LANE_SEEK_NAME.to_owned()))
}

/// The target for backing away `distance` sideways (to the robot's right) from an
/// instrument.
pub fn undock_target(current: &Position, distance: i32) -> (r: Result<Position, RobotError>)
    ensures
        r is Ok <==> displacement_fits(*current, 0, -distance),
        r is Ok ==> r->Ok_0 == (Position {
            position_name: None,
            x_coordinate: displaced(*current, 0, -distance).0 as i32,
            y_coordinate: displaced(*current, 0, -distance).1 as i32,
            theta: current.theta,
        }),
        r is Err ==> r->Err_0 == displacement_error(*current),
{
    displace(current, 0, -(distance as i64), None)
}

/// The target next to a visual marker: `strafe_dist` to the robot's left and
/// `forward_backward_dist` ahead when the marker's bearing is positive, astern when it
/// is negative, not at all when it is zero.
pub fn dock_target(current: &Position, forward_backward_dist: i32, strafe_dist: i32, bearing_sign: i32) -> (r: Result<Position, RobotError>)
    ensures
        ({
            let ahead: int = if bearing_sign > 0 {
                forward_backward_dist as int
            } else if bearing_sign < 0 {
                -forward_backward_dist
            } else {
                0
            };
            &&& r is Ok <==> displacement_fits(*current, ahead, strafe_dist as int)
            &&& r is Ok ==> r->Ok_0 == (Position {
                position_name: None,
                x_coordinate: displaced(*current, ahead, strafe_dist as int).0 as i32,
                y_coordinate: displaced(*current, ahead, strafe_dist as int).1 as i32,
                theta: current.theta,
            })
            &&& r is Err ==> r->Err_0 == displacement_error(*current)
        }),
{
    let ahead: i64 = if bearing_sign > 0 {
        forward_backward_dist as i64
    } else if bearing_sign < 0 {
        -(forward_backward_dist as i64)
    } else {
        0
    };
    displace(current, ahead, strafe_dist as i64, None)
}

/// The outcome of one tick of the navigation loop.
pub struct NavTick {
    /// The controller's next state.
    pub state: NavComputerStates,
    /// The wheel orders to send, in order.
    pub orders: Vec<MotorOrders>,
    /// The robot stands at the target, up to the tolerances; a waiting caller may go on.
    pub arrived: bool,
}

/// One tick of the navigation loop on the freshly read pose: report arrival when the
/// pose matches the target, then advance the motion controller once.
pub fn navigation_tick(state: NavComputerStates, target: Position, current: Position) -> (r: NavTick)
    ensures
        r.arrived == near_pose(current@, target@),
        r.state == nav_step(state, target, current).0,
        r.orders@ == nav_step(state, target, current).1,
{
    let arrived = current.equals(&target);
    let (next, orders) = state.run(target, current);
    NavTick { state: next, orders, arrived }
}

} // verus!
