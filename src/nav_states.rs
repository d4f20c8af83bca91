use vstd::prelude::*;
use crate::chassis::{all_stop, EngineOrder, MotorOrders};
use crate::moves::{direction_index, direction_of_index, heading_of, Direction, Heading};
use crate::pose::{abs_diff_i32, dist, near_coordinates, near_heading, name_view, Position};

verus! {

/// The name a target pose carries while the robot creeps along a rack looking for a
/// lane; it asks for the gentler, asymmetric approach speeds.
pub const LANE_SEEK_NAME: &'static str = "LANE_SEEK";

/// Within this distance of the target on the main axis the robot skips acceleration.
pub const SHORT_MOVE: u32 = 100;

/// Within this distance of the target on the main axis the slow approach ends.
pub const ARRIVAL_MARGIN: u32 = 1;

/// At rest; the next tick plans a new motion.
#[derive(Debug, Clone, Copy, PartialEq, Eq, Structural)]
pub struct Stopped;

/// Driving at full speed until the deceleration point.
#[derive(Debug, Clone, PartialEq)]
pub struct Accelerating {
    pub movement_forward_backward: Direction,
    pub movement_right_left: Direction,
    pub movement_on_theta: Direction,
    pub is_strafe_on_x: bool,
    pub decelerating_position: Position,
    pub initial_position: Position,
}

/// Motors stopped, waiting for the robot to settle.
#[derive(Debug, Clone, PartialEq)]
pub struct Decelerating {
    pub movement_forward_backward: Direction,
    pub movement_right_left: Direction,
    pub movement_on_theta: Direction,
    pub is_strafe_on_x: bool,
    pub previous_position: Position,
    pub initial_position: Position,
}

/// Approaching the target slowly on the main axis.
#[derive(Debug, Clone, PartialEq)]
pub struct SlowRide {
    pub movement_forward_backward: Direction,
    pub movement_right_left: Direction,
    pub movement_on_theta: Direction,
    pub is_strafe_on_x: bool,
    pub initial_position: Position,
}

/// Moving sideways toward the target on the secondary axis.
#[derive(Debug, Clone, PartialEq)]
pub struct Strafing {
    pub movement_right_left: Direction,
    pub movement_on_theta: Direction,
    pub initial_position: Position,
    pub is_strafe_on_x: bool,
}

/// Turning in place toward the target heading.
#[derive(Debug, Clone, Copy, PartialEq, Eq, Structural)]
pub struct Rotating {
    pub movement_on_theta: Direction,
}

/// The motion controller's state, advanced once per tick.
#[derive(Debug, Clone, PartialEq)]
pub enum NavComputerStates {
    Stopped(Stopped),
    Accelerating(Accelerating),
    Decelerating(Decelerating),
    SlowRide(SlowRide),
    Strafing(Strafing),
    Rotating(Rotating),
}

/// The wheel orders for a direction: full speed ahead or astern unless slow, the
/// asymmetric creep when leaning into an instrument, slow speeds for strafing and
/// turning, and all stop for no movement.
pub open spec fn motor_orders(d: Direction, is_slow: bool, leaning: bool) -> MotorOrders {
    let (fr, fl, bl, br) = match d {
        Direction::Forward => if !is_slow && !leaning {
            (EngineOrder::FullAhead, EngineOrder::FullAhead, EngineOrder::FullAhead, EngineOrder::FullAhead)
        } else if leaning {
            (EngineOrder::UnDeadSlowAhead, EngineOrder::DeadSlowAhead, EngineOrder::DeadSlowAhead, EngineOrder::UnDeadSlowAhead)
        } else {
            (EngineOrder::SlowAhead, EngineOrder::SlowAhead, EngineOrder::SlowAhead, EngineOrder::SlowAhead)
        },
        Direction::Backward => if !is_slow {
            (EngineOrder::FullAstern, EngineOrder::FullAstern, EngineOrder::FullAstern, EngineOrder::FullAstern)
        } else {
            (EngineOrder::SlowAstern, EngineOrder::SlowAstern, EngineOrder::SlowAstern, EngineOrder::SlowAstern)
        },
        Direction::Left => (EngineOrder::SlowAstern, EngineOrder::SlowAhead, EngineOrder::SlowAstern, EngineOrder::SlowAhead),
        Direction::Right => (EngineOrder::SlowAhead, EngineOrder::SlowAstern, EngineOrder::SlowAhead, EngineOrder::SlowAstern),
        Direction::RotateRight => (EngineOrder::SlowAstern, EngineOrder::SlowAhead, EngineOrder::SlowAhead, EngineOrder::SlowAstern),
        Direction::RotateLeft => (EngineOrder::SlowAhead, EngineOrder::SlowAstern, EngineOrder::SlowAstern, EngineOrder::SlowAhead),
        Direction::NoMovement => (EngineOrder::Stop, EngineOrder::Stop, EngineOrder::Stop, EngineOrder::Stop),
    };
    MotorOrders { front_right: fr, front_left: fl, back_left: bl, back_right: br }
}

impl Direction {
    /// The wheel orders that move the robot in this direction.
    pub fn motors_setting(&self, is_slow: bool, is_leaning_into_instrument: bool) -> (r: MotorOrders)
        ensures
            r == motor_orders(*self, is_slow, is_leaning_into_instrument),
    {
        match self {
            Direction::Forward => {
                if !is_slow && !is_leaning_into_instrument {
                    MotorOrders::new(EngineOrder::FullAhead, EngineOrder::FullAhead, EngineOrder::FullAhead, EngineOrder::FullAhead)
                } else if is_leaning_into_instrument {
                    MotorOrders::new(EngineOrder::UnDeadSlowAhead, EngineOrder::DeadSlowAhead, EngineOrder::DeadSlowAhead, EngineOrder::UnDeadSlowAhead)
                } else {
                    MotorOrders::new(EngineOrder::SlowAhead, EngineOrder::SlowAhead, EngineOrder::SlowAhead, EngineOrder::SlowAhead)
                }
            },
            Direction::Backward => {
                if !is_slow {
                    MotorOrders::new(EngineOrder::FullAstern, EngineOrder::FullAstern, EngineOrder::FullAstern, EngineOrder::FullAstern)
                } else {
                    MotorOrders::new(EngineOrder::SlowAstern, EngineOrder::SlowAstern, EngineOrder::SlowAstern, EngineOrder::SlowAstern)
                }
            },
            Direction::Left => MotorOrders::new(EngineOrder::SlowAstern, EngineOrder::SlowAhead, EngineOrder::SlowAstern, EngineOrder::SlowAhead),
            Direction::Right => MotorOrders::new(EngineOrder::SlowAhead, EngineOrder::SlowAstern, EngineOrder::SlowAhead, EngineOrder::SlowAstern),
            Direction::RotateRight => MotorOrders::new(EngineOrder::SlowAstern, EngineOrder::SlowAhead, EngineOrder::SlowAhead, EngineOrder::SlowAstern),
            Direction::RotateLeft => MotorOrders::new(EngineOrder::SlowAhead, EngineOrder::SlowAstern, EngineOrder::SlowAstern, EngineOrder::SlowAhead),
            Direction::NoMovement => MotorOrders::stop(),
        }
    }
}

/// A map-axis direction seen from the robot: turned by one step of the cycle
/// Forward, Right, Backward, Left per quarter turn of the heading; at a heading that
/// is not cardinal there is no usable direction.
pub open spec fn robot_frame(d: Direction, h: Heading) -> Direction {
    match h {
        Heading::North => d,
        Heading::East => direction_of_index((direction_index(d) + 1) % 4),
        Heading::South => direction_of_index((direction_index(d) + 2) % 4),
        Heading::West => direction_of_index((direction_index(d) + 3) % 4),
        Heading::NoClearOrientation => Direction::NoMovement,
    }
}

/// A straight-line direction along the robot's own length.
pub open spec fn is_lengthwise(d: Direction) -> bool {
    d == Direction::Forward || d == Direction::Backward
}

/// Eight tenths of a distance, rounded toward zero.
pub open spec fn eight_tenths(d: int) -> int {
    if d >= 0 {
        (8 * d) / 10
    } else {
        -((8 * -d) / 10)
    }
}

/// The point, 80% of the way from `c` to `t`, where acceleration gives way to
/// deceleration; it keeps the current heading.
pub open spec fn deceleration_point(t: Position, c: Position) -> Position {
    Position {
        position_name: None,
        x_coordinate: (c.x_coordinate + eight_tenths(t.x_coordinate - c.x_coordinate)) as i32,
        y_coordinate: (c.y_coordinate + eight_tenths(t.y_coordinate - c.y_coordinate)) as i32,
        theta: c.theta,
    }
}

/// The first state of a planned motion: slow approach for a short move, acceleration
/// otherwise.
pub open spec fn planned_motion(
    fb: Direction,
    rl: Direction,
    rot: Direction,
    strafe_on_x: bool,
    main_distance: int,
    t: Position,
    c: Position,
) -> NavComputerStates {
    if main_distance <= SHORT_MOVE {
        NavComputerStates::SlowRide(SlowRide {
            movement_forward_backward: fb,
            movement_right_left: rl,
            movement_on_theta: rot,
            is_strafe_on_x: strafe_on_x,
            initial_position: c,
        })
    } else {
        NavComputerStates::Accelerating(Accelerating {
            movement_forward_backward: fb,
            movement_right_left: rl,
            movement_on_theta: rot,
            is_strafe_on_x: strafe_on_x,
            decelerating_position: deceleration_point(t, c),
            initial_position: c,
        })
    }
}

/// The plan made at rest: split the displacement to the target into the robot's own
/// frame, make the lengthwise part the main axis, and turn toward the target heading
/// last.
pub open spec fn stopped_next(t: Position, c: Position) -> NavComputerStates {
    let h = heading_of(c.theta as int);
    let mx = robot_frame(
        if t.x_coordinate > c.x_coordinate { Direction::Forward } else { Direction::Backward },
        h,
    );
    let my = robot_frame(if t.y_coordinate > c.y_coordinate { Direction::Right } else { Direction::Left }, h);
    let rot = if t.theta < c.theta { Direction::RotateLeft } else { Direction::RotateRight };
    if is_lengthwise(my) {
        planned_motion(my, mx, rot, true, dist(t.y_coordinate as int, c.y_coordinate as int), t, c)
    } else if is_lengthwise(mx) {
        planned_motion(mx, my, rot, false, dist(t.x_coordinate as int, c.x_coordinate as int), t, c)
    } else {
        NavComputerStates::SlowRide(SlowRide {
            movement_forward_backward: Direction::NoMovement,
            movement_right_left: Direction::NoMovement,
            movement_on_theta: rot,
            is_strafe_on_x: false,
            initial_position: c,
        })
    }
}

/// The coordinate of a pose on the main axis of a motion.
pub open spec fn main_coordinate(p: Position, strafe_on_x: bool) -> int {
    if strafe_on_x {
        p.y_coordinate as int
    } else {
        p.x_coordinate as int
    }
}

/// The coordinate of a pose on the secondary axis of a motion.
pub open spec fn side_coordinate(p: Position, strafe_on_x: bool) -> int {
    if strafe_on_x {
        p.x_coordinate as int
    } else {
        p.y_coordinate as int
    }
}

/// The target asks for the lane-seeking approach.
pub open spec fn is_lane_seek_target(t: Position) -> bool {
    name_view(t.position_name) == Some(LANE_SEEK_NAME@)
}

/// One tick of the motion controller: the next state and the wheel orders to send,
/// in order, given the target and the current pose.
pub open spec fn nav_step(s: NavComputerStates, t: Position, c: Position) -> (NavComputerStates, Seq<MotorOrders>) {
    match s {
        NavComputerStates::Stopped(_) => (stopped_next(t, c), seq![all_stop()]),
        NavComputerStates::Accelerating(a) => {
            let decelerating = NavComputerStates::Decelerating(Decelerating {
                movement_forward_backward: a.movement_forward_backward,
                movement_right_left: a.movement_right_left,
                movement_on_theta: a.movement_on_theta,
                is_strafe_on_x: a.is_strafe_on_x,
                previous_position: c,
                initial_position: a.initial_position,
            });
            if a.movement_forward_backward == Direction::NoMovement {
                (decelerating, seq![])
            } else {
                let orders = seq![motor_orders(a.movement_forward_backward, false, false)];
                let to_target = dist(main_coordinate(t, a.is_strafe_on_x), main_coordinate(c, a.is_strafe_on_x));
                let trigger_to_target = dist(
                    main_coordinate(t, a.is_strafe_on_x),
                    main_coordinate(a.decelerating_position, a.is_strafe_on_x),
                );
                if trigger_to_target >= to_target {
                    (decelerating, orders)
                } else {
                    (s, orders)
                }
            }
        },
        NavComputerStates::Decelerating(d) => {
            let slow = NavComputerStates::SlowRide(SlowRide {
                movement_forward_backward: d.movement_forward_backward,
                movement_right_left: d.movement_right_left,
                movement_on_theta: d.movement_on_theta,
                is_strafe_on_x: d.is_strafe_on_x,
                initial_position: d.initial_position,
            });
            if d.movement_forward_backward == Direction::NoMovement {
                (slow, seq![])
            } else if near_coordinates(c@, d.previous_position@) {
                (slow, seq![all_stop()])
            } else {
                (NavComputerStates::Decelerating(Decelerating { previous_position: c, ..d }), seq![all_stop()])
            }
        },
        NavComputerStates::SlowRide(r) => {
            let strafing = NavComputerStates::Strafing(Strafing {
                movement_right_left: r.movement_right_left,
                movement_on_theta: r.movement_on_theta,
                initial_position: r.initial_position,
                is_strafe_on_x: r.is_strafe_on_x,
            });
            if r.movement_forward_backward == Direction::NoMovement {
                (strafing, seq![])
            } else {
                let orders = seq![motor_orders(r.movement_forward_backward, true, is_lane_seek_target(t))];
                let sx = r.is_strafe_on_x;
                let travelled = dist(main_coordinate(r.initial_position, sx), main_coordinate(c, sx));
                let planned = dist(main_coordinate(t, sx), main_coordinate(r.initial_position, sx));
                let remaining = dist(main_coordinate(c, sx), main_coordinate(t, sx));
                if remaining <= ARRIVAL_MARGIN || travelled > planned {
                    (strafing, orders.push(all_stop()))
                } else {
                    (s, orders)
                }
            }
        },
        NavComputerStates::Strafing(f) => {
            let rotating = NavComputerStates::Rotating(Rotating { movement_on_theta: f.movement_on_theta });
            if f.movement_right_left == Direction::NoMovement {
                (rotating, seq![])
            } else {
                let orders = seq![motor_orders(f.movement_right_left, true, false)];
                let sx = f.is_strafe_on_x;
                let travelled = dist(side_coordinate(f.initial_position, sx), side_coordinate(c, sx));
                let planned = dist(side_coordinate(t, sx), side_coordinate(f.initial_position, sx));
                if near_coordinates(c@, t@) || travelled > planned {
                    (rotating, orders.push(all_stop()))
                } else {
                    (s, orders)
                }
            }
        },
        NavComputerStates::Rotating(r) => {
            if near_heading(c@, t@) {
                (NavComputerStates::Stopped(Stopped), seq![all_stop()])
            } else {
                (s, seq![motor_orders(r.movement_on_theta, false, false)])
            }
        },
    }
}


/// The coordinate 80% of the way from `c` to `t`, rounded toward `c`.
fn deceleration_coordinate(t: i32, c: i32) -> (r: i32)
    ensures
        r == c + eight_tenths(t - c),
{
    let d: i64 = t as i64 - c as i64;
    let a: u64 = if d >= 0 { d as u64 } else { (-d) as u64 };
    let part: u64 = (8 * a) / 10;
    proof {
        assert(0 <= (8 * a) / 10 <= a) by (nonlinear_arith)
            requires
                a >= 0,
        ;
    }
    let o: i64 = if d >= 0 { part as i64 } else { -(part as i64) };
    (c as i64 + o) as i32
}

/// The deceleration point of a motion from `c` toward `t`.
fn deceleration_position(t: &Position, c: &Position) -> (r: Position)
    ensures
        r == deceleration_point(*t, *c),
{
    Position {
        position_name: None,
        x_coordinate: deceleration_coordinate(t.x_coordinate, c.x_coordinate),
        y_coordinate: deceleration_coordinate(t.y_coordinate, c.y_coordinate),
        theta: c.theta,
    }
}

/// A map-axis direction as seen by a robot with the given heading.
fn to_robot_frame(d: Direction, h: Heading) -> (r: Direction)
    requires
        d == Direction::Forward || d == Direction::Backward || d == Direction::Right || d == Direction::Left,
    ensures
        r == robot_frame(d, h),
{
    let k: i16 = match h {
        Heading::North => {
            return d;
        },
        Heading::East => 1,
        Heading::South => 2,
        Heading::West => 3,
        Heading::NoClearOrientation => {
            return Direction::NoMovement;
        },
    };
    let v = Direction::to_value(d);
    Direction::from_value((((v + k) as u16) % 4) as i16)
}

/// The target carries the lane-seeking name.
fn is_lane_seek(t: &Position) -> (r: bool)
    ensures
        r == is_lane_seek_target(*t),
{
    match &t.position_name {
        Some(n) => {
            let lane = LANE_SEEK_NAME.to_owned();
            *n == lane
        },
        None => false,
    }
}

/// The coordinate of a pose on the main axis of a motion.
fn main_of(p: &Position, strafe_on_x: bool) -> (r: i32)
    ensures
        r == main_coordinate(*p, strafe_on_x),
{
    if strafe_on_x {
        p.y_coordinate
    } else {
        p.x_coordinate
    }
}

/// The coordinate of a pose on the secondary axis of a motion.
fn side_of(p: &Position, strafe_on_x: bool) -> (r: i32)
    ensures
        r == side_coordinate(*p, strafe_on_x),
{
    if strafe_on_x {
        p.x_coordinate
    } else {
        p.y_coordinate
    }
}

impl Stopped {
    pub fn new() -> (r: Stopped)
        ensures
            r == Stopped,
    {
        Stopped
    }

    /// Stops the wheels and plans the motion toward the target.
    pub fn run(self, target_position: Position, current_position: Position) -> (r: (NavComputerStates, Vec<MotorOrders>))
        ensures
            r.0 == nav_step(NavComputerStates::Stopped(self), target_position, current_position).0,
            r.1@ == nav_step(NavComputerStates::Stopped(self), target_position, current_position).1,
    {
        let t = &target_position;
        let c = &current_position;
        let mut orders: Vec<MotorOrders> = Vec::new();
        orders.push(MotorOrders::stop());
        let h = Heading::from_degrees(c.theta);
        let mx = to_robot_frame(
            if t.x_coordinate > c.x_coordinate { Direction::Forward } else { Direction::Backward },
            h,
        );
        let my = to_robot_frame(
            if t.y_coordinate > c.y_coordinate { Direction::Right } else { Direction::Left },
            h,
        );
        let rot = if t.theta < c.theta { Direction::RotateLeft } else { Direction::RotateRight };
        let (fb, rl, sx, main_distance) = if my == Direction::Forward || my == Direction::Backward {
            (my, mx, true, abs_diff_i32(t.y_coordinate, c.y_coordinate))
        } else if mx == Direction::Forward || mx == Direction::Backward {
            (mx, my, false, abs_diff_i32(t.x_coordinate, c.x_coordinate))
        } else {
            let next = NavComputerStates::SlowRide(
                SlowRide::new(Direction::NoMovement, Direction::NoMovement, rot, false, current_position),
            );
            assert(orders@ =~= seq![all_stop()]);
            return (next, orders);
        };
        let next = if main_distance <= SHORT_MOVE {
            NavComputerStates::SlowRide(SlowRide::new(fb, rl, rot, sx, current_position))
        } else {
            let decel = deceleration_position(&target_position, &current_position);
            NavComputerStates::Accelerating(Accelerating::new(fb, rl, rot, sx, decel, current_position))
        };
        assert(orders@ =~= seq![all_stop()]);
        (next, orders)
    }
}

impl Accelerating {
    pub fn new(
        movement_forward_backward: Direction,
        movement_right_left: Direction,
        movement_on_theta: Direction,
        is_strafe_on_x: bool,
        decelerating_position: Position,
        initial_position: Position,
    ) -> (r: Accelerating)
        ensures
            r == (Accelerating {
                movement_forward_backward,
                movement_right_left,
                movement_on_theta,
                is_strafe_on_x,
                decelerating_position,
                initial_position,
            }),
    {
        Accelerating {
            movement_forward_backward,
            movement_right_left,
            movement_on_theta,
            is_strafe_on_x,
            decelerating_position,
            initial_position,
        }
    }

    /// Drives at full speed; once the deceleration point is reached or passed on the
    /// main axis, hands over to deceleration.
    pub fn run(self, target_position: Position, current_position: Position) -> (r: (NavComputerStates, Vec<MotorOrders>))
        ensures
            r.0 == nav_step(NavComputerStates::Accelerating(self), target_position, current_position).0,
            r.1@ == nav_step(NavComputerStates::Accelerating(self), target_position, current_position).1,
    {
        let mut orders: Vec<MotorOrders> = Vec::new();
        if self.movement_forward_backward == Direction::NoMovement {
            let next = NavComputerStates::Decelerating(Decelerating::new(
                self.movement_forward_backward,
                self.movement_right_left,
                self.movement_on_theta,
                self.is_strafe_on_x,
                current_position,
                self.initial_position,
            ));
            assert(orders@ =~= seq![]);
            return (next, orders);
        }
        orders.push(self.movement_forward_backward.motors_setting(false, false));
        let sx = self.is_strafe_on_x;
        let to_target = abs_diff_i32(main_of(&target_position, sx), main_of(&current_position, sx));
        let trigger_to_target = abs_diff_i32(
            main_of(&target_position, sx),
            main_of(&self.decelerating_position, sx),
        );
        assert(orders@ =~= seq![motor_orders(self.movement_forward_backward, false, false)]);
        if trigger_to_target >= to_target {
            let next = NavComputerStates::Decelerating(Decelerating::new(
                self.movement_forward_backward,
                self.movement_right_left,
                self.movement_on_theta,
                self.is_strafe_on_x,
                current_position,
                self.initial_position,
            ));
            (next, orders)
        } else {
            (NavComputerStates::Accelerating(self), orders)
        }
    }
}

impl Decelerating {
    pub fn new(
        movement_forward_backward: Direction,
        movement_right_left: Direction,
        movement_on_theta: Direction,
        is_strafe_on_x: bool,
        previous_position: Position,
        initial_position: Position,
    ) -> (r: Decelerating)
        ensures
            r == (Decelerating {
                movement_forward_backward,
                movement_right_left,
                movement_on_theta,
                is_strafe_on_x,
                previous_position,
                initial_position,
            }),
    {
        Decelerating {
            movement_forward_backward,
            movement_right_left,
            movement_on_theta,
            is_strafe_on_x,
            previous_position,
            initial_position,
        }
    }

    /// Keeps the wheels stopped until the pose no longer changes between ticks, then
    /// starts the slow approach.
    pub fn run(self, target_position: Position, current_position: Position) -> (r: (NavComputerStates, Vec<MotorOrders>))
        ensures
            r.0 == nav_step(NavComputerStates::Decelerating(self), target_position, current_position).0,
            r.1@ == nav_step(NavComputerStates::Decelerating(self), target_position, current_position).1,
    {
        let mut orders: Vec<MotorOrders> = Vec::new();
        if self.movement_forward_backward == Direction::NoMovement {
            let next = NavComputerStates::SlowRide(SlowRide::new(
                self.movement_forward_backward,
                self.movement_right_left,
                self.movement_on_theta,
                self.is_strafe_on_x,
                self.initial_position,
            ));
            assert(orders@ =~= seq![]);
            return (next, orders);
        }
        orders.push(MotorOrders::stop());
        assert(orders@ =~= seq![all_stop()]);
        if current_position.equals_coordinates(&self.previous_position) {
            let next = NavComputerStates::SlowRide(SlowRide::new(
                self.movement_forward_backward,
                self.movement_right_left,
                self.movement_on_theta,
                self.is_strafe_on_x,
                self.initial_position,
            ));
            (next, orders)
        } else {
            let next = NavComputerStates::Decelerating(Decelerating::new(
                self.movement_forward_backward,
                self.movement_right_left,
                self.movement_on_theta,
                self.is_strafe_on_x,
                current_position,
                self.initial_position,
            ));
            (next, orders)
        }
    }
}

impl SlowRide {
    pub fn new(
        movement_forward_backward: Direction,
        movement_right_left: Direction,
        movement_on_theta: Direction,
        is_strafe_on_x: bool,
        initial_position: Position,
    ) -> (r: SlowRide)
        ensures
            r == (SlowRide {
                movement_forward_backward,
                movement_right_left,
                movement_on_theta,
                is_strafe_on_x,
                initial_position,
            }),
    {
        SlowRide { movement_forward_backward, movement_right_left, movement_on_theta, is_strafe_on_x, initial_position }
    }

    /// Approaches slowly on the main axis; within one unit of the target, or past it,
    /// stops and starts strafing.
    pub fn run(self, target_position: Position, current_position: Position) -> (r: (NavComputerStates, Vec<MotorOrders>))
        ensures
            r.0 == nav_step(NavComputerStates::SlowRide(self), target_position, current_position).0,
            r.1@ == nav_step(NavComputerStates::SlowRide(self), target_position, current_position).1,
    {
        let mut orders: Vec<MotorOrders> = Vec::new();
        if self.movement_forward_backward == Direction::NoMovement {
            let next = NavComputerStates::Strafing(Strafing::new(
                self.movement_right_left,
                self.movement_on_theta,
                self.initial_position,
                self.is_strafe_on_x,
            ));
            assert(orders@ =~= seq![]);
            return (next, orders);
        }
        orders.push(self.movement_forward_backward.motors_setting(true, is_lane_seek(&target_position)));
        let sx = self.is_strafe_on_x;
        let travelled = abs_diff_i32(main_of(&self.initial_position, sx), main_of(&current_position, sx));
        let planned = abs_diff_i32(main_of(&target_position, sx), main_of(&self.initial_position, sx));
        let remaining = abs_diff_i32(main_of(&current_position, sx), main_of(&target_position, sx));
        if remaining <= ARRIVAL_MARGIN || travelled > planned {
            orders.push(MotorOrders::stop());
            let next = NavComputerStates::Strafing(Strafing::new(
                self.movement_right_left,
                self.movement_on_theta,
                self.initial_position,
                self.is_strafe_on_x,
            ));
            assert(orders@ =~= seq![
                motor_orders(self.movement_forward_backward, true, is_lane_seek_target(target_position)),
                all_stop(),
            ]);
            (next, orders)
        } else {
            assert(orders@ =~= seq![
                motor_orders(self.movement_forward_backward, true, is_lane_seek_target(target_position)),
            ]);
            (NavComputerStates::SlowRide(self), orders)
        }
    }
}

impl Strafing {
    pub fn new(
        movement_right_left: Direction,
        movement_on_theta: Direction,
        initial_position: Position,
        is_strafe_on_x: bool,
    ) -> (r: Strafing)
        ensures
            r == (Strafing { movement_right_left, movement_on_theta, initial_position, is_strafe_on_x }),
    {
        Strafing { movement_right_left, movement_on_theta, initial_position, is_strafe_on_x }
    }

    /// Moves sideways; at the target's coordinates, or past it on the secondary axis,
    /// stops and starts turning.
    pub fn run(self, target_position: Position, current_position: Position) -> (r: (NavComputerStates, Vec<MotorOrders>))
        ensures
            r.0 == nav_step(NavComputerStates::Strafing(self), target_position, current_position).0,
            r.1@ == nav_step(NavComputerStates::Strafing(self), target_position, current_position).1,
    {
        let mut orders: Vec<MotorOrders> = Vec::new();
        if self.movement_right_left == Direction::NoMovement {
            assert(orders@ =~= seq![]);
            return (NavComputerStates::Rotating(Rotating::new(self.movement_on_theta)), orders);
        }
        orders.push(self.movement_right_left.motors_setting(true, false));
        let sx = self.is_strafe_on_x;
        let travelled = abs_diff_i32(side_of(&self.initial_position, sx), side_of(&current_position, sx));
        let planned = abs_diff_i32(side_of(&target_position, sx), side_of(&self.initial_position, sx));
        if current_position.equals_coordinates(&target_position) || travelled > planned {
            orders.push(MotorOrders::stop());
            assert(orders@ =~= seq![motor_orders(self.movement_right_left, true, false), all_stop()]);
            (NavComputerStates::Rotating(Rotating::new(self.movement_on_theta)), orders)
        } else {
            assert(orders@ =~= seq![motor_orders(self.movement_right_left, true, false)]);
            (NavComputerStates::Strafing(self), orders)
        }
    }
}

impl Rotating {
    pub fn new(movement_on_theta: Direction) -> (r: Rotating)
        ensures
            r == (Rotating { movement_on_theta }),
    {
        Rotating { movement_on_theta }
    }

    /// Turns until the heading is within tolerance of the target's, then stops.
    pub fn run(self, target_position: Position, current_position: Position) -> (r: (NavComputerStates, Vec<MotorOrders>))
        ensures
            r.0 == nav_step(NavComputerStates::Rotating(self), target_position, current_position).0,
            r.1@ == nav_step(NavComputerStates::Rotating(self), target_position, current_position).1,
    {
        let mut orders: Vec<MotorOrders> = Vec::new();
        if current_position.equals_theta(&target_position) {
            orders.push(MotorOrders::stop());
            assert(orders@ =~= seq![all_stop()]);
            return (NavComputerStates::Stopped(Stopped::new()), orders);
        }
        orders.push(self.movement_on_theta.motors_setting(false, false));
        assert(orders@ =~= seq![motor_orders(self.movement_on_theta, false, false)]);
        (NavComputerStates::Rotating(self), orders)
    }
}

impl NavComputerStates {
    /// One tick of the motion controller: consumes the state and returns the next one
    /// with the wheel orders to send, in order.
    pub fn run(self, target_position: Position, current_position: Position) -> (r: (NavComputerStates, Vec<MotorOrders>))
        ensures
            r.0 == nav_step(self, target_position, current_position).0,
            r.1@ == nav_step(self, target_position, current_position).1,
    {
        match self {
            NavComputerStates::Stopped(state) => state.run(target_position, current_position),
            NavComputerStates::Accelerating(state) => state.run(target_position, current_position),
            NavComputerStates::Decelerating(state) => state.run(target_position, current_position),
            NavComputerStates::SlowRide(state) => state.run(target_position, current_position),
            NavComputerStates::Strafing(state) => state.run(target_position, current_position),
            NavComputerStates::Rotating(state) => state.run(target_position, current_position),
        }
    }
}

impl Default for Stopped {
    fn default() -> (r: Self)
        ensures
            r == Stopped,
    {
        Stopped
    }
}

} // verus!
