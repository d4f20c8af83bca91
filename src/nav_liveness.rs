use vstd::prelude::*;
use crate::chassis::{all_stop, MotorOrders};
use crate::moves::{direction_index, heading_of, Direction, Heading};
use crate::nav_states::{
    deceleration_point, eight_tenths, planned_motion, robot_frame, stopped_next,
    is_lane_seek_target, main_coordinate, motor_orders, nav_step, side_coordinate, NavComputerStates,
    Accelerating, Decelerating, Rotating, SlowRide, Stopped, Strafing,
};
use crate::pose::{dist, near_coordinates, near_heading, near_pose, Position};

verus! {

/// Quarter turns clockwise from north.
pub open spec fn quarter_of(h: Heading) -> int {
    match h {
        Heading::East => 1,
        Heading::South => 2,
        Heading::West => 3,
        _ => 0,
    }
}

/// The map direction (0 toward +x, 1 toward +y, 2 toward -x, 3 toward -y) in which
/// a robot-frame translation moves a robot with the given heading.
pub open spec fn map_direction(d: Direction, h: Heading) -> int {
    (direction_index(d) - quarter_of(h)) % 4
}

/// One unit along a map direction.
pub open spec fn unit_step(i: int) -> (int, int) {
    if i == 0 {
        (1, 0)
    } else if i == 1 {
        (0, 1)
    } else if i == 2 {
        (-1, 0)
    } else {
        (0, -1)
    }
}

/// The movement that a set of wheel orders produces.
pub open spec fn ordered_motion(o: MotorOrders) -> Direction {
    if o == motor_orders(Direction::Forward, false, false) || o == motor_orders(Direction::Forward, true, false)
        || o == motor_orders(Direction::Forward, true, true) {
        Direction::Forward
    } else if o == motor_orders(Direction::Backward, false, false) || o == motor_orders(
        Direction::Backward,
        true,
        false,
    ) {
        Direction::Backward
    } else if o == motor_orders(Direction::Left, true, false) {
        Direction::Left
    } else if o == motor_orders(Direction::Right, true, false) {
        Direction::Right
    } else if o == motor_orders(Direction::RotateRight, false, false) {
        Direction::RotateRight
    } else if o == motor_orders(Direction::RotateLeft, false, false) {
        Direction::RotateLeft
    } else {
        Direction::NoMovement
    }
}

/// The pose after one tick of an ideal chassis running the orders: one unit in the
/// commanded direction, or one degree for a turn; nothing for a stop.
pub open spec fn moved(p: Position, o: MotorOrders) -> Position {
    let d = ordered_motion(o);
    let h = heading_of(p.theta as int);
    match d {
        Direction::RotateRight => Position { theta: ((p.theta + 1) % 360) as u16, ..p },
        Direction::RotateLeft => Position { theta: ((p.theta + 359) % 360) as u16, ..p },
        Direction::NoMovement => p,
        _ => if h == Heading::NoClearOrientation {
            p
        } else {
            let s = unit_step(map_direction(d, h));
            Position {
                x_coordinate: (p.x_coordinate + s.0) as i32,
                y_coordinate: (p.y_coordinate + s.1) as i32,
                ..p
            }
        },
    }
}

/// One tick of the controller driving an ideal chassis: the controller decides on
/// the pose just read, the last order sent stays in force (an empty tick leaves the
/// previous orders running), and the chassis carries it out.
pub open spec fn perfect_tick(
    s: NavComputerStates,
    running: MotorOrders,
    p: Position,
    t: Position,
) -> (NavComputerStates, MotorOrders, Position) {
    let step = nav_step(s, t, p);
    let now = if step.1.len() > 0 {
        step.1.last()
    } else {
        running
    };
    (step.0, now, moved(p, now))
}

/// `n` ticks of the controller driving an ideal chassis toward `t`.
pub open spec fn perfect_run(
    s: NavComputerStates,
    running: MotorOrders,
    p: Position,
    t: Position,
    n: nat,
) -> (NavComputerStates, MotorOrders, Position)
    decreases n,
{
    if n == 0 {
        (s, running, p)
    } else {
        let next = perfect_tick(s, running, p, t);
        perfect_run(next.0, next.1, next.2, t, (n - 1) as nat)
    }
}

/// The run ends at rest, at the target up to the tolerances.
pub open spec fn arrived_at_rest(r: (NavComputerStates, MotorOrders, Position), t: Position) -> bool {
    r.0 == NavComputerStates::Stopped(Stopped) && near_pose(r.2@, t@)
}

/// The turning phase ends at rest facing the target, once the coordinates already
/// match and the turn goes toward the target heading.
proof fn lemma_rotating_ends(rot: Direction, running: MotorOrders, p: Position, t: Position) -> (n: nat)
    requires
        near_coordinates(p@, t@),
        p.theta < 360,
        t.theta <= 360,
        rot == Direction::RotateRight || rot == Direction::RotateLeft,
        rot == Direction::RotateRight ==> p.theta <= t.theta,
        rot == Direction::RotateLeft ==> p.theta >= t.theta,
    ensures
        n >= 1,
        arrived_at_rest(perfect_run(NavComputerStates::Rotating(Rotating { movement_on_theta: rot }), running, p, t, n), t),
    decreases dist(p.theta as int, t.theta as int),
{
    let s = NavComputerStates::Rotating(Rotating { movement_on_theta: rot });
    let next = perfect_tick(s, running, p, t);
    if near_heading(p@, t@) {
        assert(next.1 == all_stop());
        assert(ordered_motion(all_stop()) == Direction::NoMovement);
        assert(perfect_run(next.0, next.1, next.2, t, 0) == next);
        1
    } else {
        assert(next.0 == s);
        assert(next.1 == motor_orders(rot, false, false));
        let m = lemma_rotating_ends(rot, next.1, next.2, t);
        m + 1
    }
}


/// Cardinal headings, where translations have a map direction.
pub open spec fn cardinal_heading(theta: u16) -> bool {
    theta == 0 || theta == 90 || theta == 180 || theta == 270
}

/// `v` lies between `a` and `b`.
pub open spec fn between(a: int, v: int, b: int) -> bool {
    (a <= v && v <= b) || (b <= v && v <= a)
}

/// The map direction in which the controller moves along the main axis of a motion
/// planned from `c` toward `t`.
pub open spec fn main_direction(c: Position, t: Position, strafe_on_x: bool) -> int {
    if strafe_on_x {
        if t.y_coordinate > c.y_coordinate { 1 } else { 3 }
    } else {
        if t.x_coordinate > c.x_coordinate { 0 } else { 2 }
    }
}

/// The map direction in which the controller moves along the secondary axis of a
/// motion planned from `c` toward `t`.
pub open spec fn side_direction(c: Position, t: Position, strafe_on_x: bool) -> int {
    if strafe_on_x {
        if t.x_coordinate > c.x_coordinate { 0 } else { 2 }
    } else {
        if t.y_coordinate > c.y_coordinate { 1 } else { 3 }
    }
}

/// A translation the controller commands.
pub open spec fn is_translation(d: Direction) -> bool {
    d == Direction::Forward || d == Direction::Backward || d == Direction::Left || d == Direction::Right
}

/// The turn goes toward the target heading.
pub open spec fn turns_toward(rot: Direction, from: u16, to: u16) -> bool {
    &&& rot == Direction::RotateRight || rot == Direction::RotateLeft
    &&& rot == Direction::RotateRight ==> from <= to
    &&& rot == Direction::RotateLeft ==> from >= to
}

/// The sideways phase reaches the target's coordinates and hands over to the turn.
proof fn lemma_strafing_ends(f: Strafing, running: MotorOrders, p: Position, t: Position) -> (n: nat)
    requires
        cardinal_heading(p.theta),
        t.theta <= 360,
        turns_toward(f.movement_on_theta, p.theta, t.theta),
        is_translation(f.movement_right_left),
        map_direction(f.movement_right_left, heading_of(p.theta as int)) == side_direction(
            f.initial_position,
            t,
            f.is_strafe_on_x,
        ),
        dist(main_coordinate(p, f.is_strafe_on_x), main_coordinate(t, f.is_strafe_on_x)) <= 1,
        between(
            side_coordinate(f.initial_position, f.is_strafe_on_x),
            side_coordinate(p, f.is_strafe_on_x),
            side_coordinate(t, f.is_strafe_on_x),
        ),
    ensures
        n >= 1,
        arrived_at_rest(perfect_run(NavComputerStates::Strafing(f), running, p, t, n), t),
    decreases dist(side_coordinate(p, f.is_strafe_on_x), side_coordinate(t, f.is_strafe_on_x)),
{
    let s = NavComputerStates::Strafing(f);
    let next = perfect_tick(s, running, p, t);
    let rl = f.movement_right_left;
    if near_coordinates(p@, t@) {
        assert(next.1 == all_stop());
        assert(ordered_motion(all_stop()) == Direction::NoMovement);
        assert(next.2 == p);
        let m = lemma_rotating_ends(f.movement_on_theta, next.1, next.2, t);
        m + 1
    } else {
        assert(next.0 == s);
        assert(next.1 == motor_orders(rl, true, false));
        assert(ordered_motion(motor_orders(rl, true, false)) == rl);
        let m = lemma_strafing_ends(f, next.1, next.2, t);
        m + 1
    }
}


/// The slow approach reaches the target on the main axis and hands over to the
/// sideways phase.
proof fn lemma_slow_ride_ends(r: SlowRide, running: MotorOrders, p: Position, t: Position) -> (n: nat)
    requires
        cardinal_heading(p.theta),
        t.theta <= 360,
        turns_toward(r.movement_on_theta, p.theta, t.theta),
        is_translation(r.movement_forward_backward),
        map_direction(r.movement_forward_backward, heading_of(p.theta as int)) == main_direction(
            r.initial_position,
            t,
            r.is_strafe_on_x,
        ),
        is_translation(r.movement_right_left),
        map_direction(r.movement_right_left, heading_of(p.theta as int)) == side_direction(
            r.initial_position,
            t,
            r.is_strafe_on_x,
        ),
        side_coordinate(p, r.is_strafe_on_x) == side_coordinate(r.initial_position, r.is_strafe_on_x),
        between(
            main_coordinate(r.initial_position, r.is_strafe_on_x),
            main_coordinate(p, r.is_strafe_on_x),
            main_coordinate(t, r.is_strafe_on_x),
        ),
    ensures
        n >= 1,
        arrived_at_rest(perfect_run(NavComputerStates::SlowRide(r), running, p, t, n), t),
    decreases dist(main_coordinate(p, r.is_strafe_on_x), main_coordinate(t, r.is_strafe_on_x)),
{
    let s = NavComputerStates::SlowRide(r);
    let next = perfect_tick(s, running, p, t);
    let fb = r.movement_forward_backward;
    let sx = r.is_strafe_on_x;
    let lean = is_lane_seek_target(t);
    if dist(main_coordinate(p, sx), main_coordinate(t, sx)) <= 1 {
        assert(next.1 == all_stop());
        assert(ordered_motion(all_stop()) == Direction::NoMovement);
        assert(next.2 == p);
        let f = Strafing {
            movement_right_left: r.movement_right_left,
            movement_on_theta: r.movement_on_theta,
            initial_position: r.initial_position,
            is_strafe_on_x: sx,
        };
        assert(next.0 == NavComputerStates::Strafing(f));
        let m = lemma_strafing_ends(f, next.1, next.2, t);
        m + 1
    } else {
        assert(next.0 == s);
        assert(next.1 == motor_orders(fb, true, lean));
        assert(ordered_motion(motor_orders(fb, true, lean)) == fb);
        let m = lemma_slow_ride_ends(r, next.1, next.2, t);
        m + 1
    }
}


/// The fast phase reaches its deceleration point, settles in one tick, and hands over
/// to the slow approach.
proof fn lemma_accelerating_ends(a: Accelerating, running: MotorOrders, p: Position, t: Position) -> (n: nat)
    requires
        cardinal_heading(p.theta),
        t.theta <= 360,
        turns_toward(a.movement_on_theta, p.theta, t.theta),
        is_translation(a.movement_forward_backward),
        map_direction(a.movement_forward_backward, heading_of(p.theta as int)) == main_direction(
            a.initial_position,
            t,
            a.is_strafe_on_x,
        ),
        is_translation(a.movement_right_left),
        map_direction(a.movement_right_left, heading_of(p.theta as int)) == side_direction(
            a.initial_position,
            t,
            a.is_strafe_on_x,
        ),
        side_coordinate(p, a.is_strafe_on_x) == side_coordinate(a.initial_position, a.is_strafe_on_x),
        between(
            main_coordinate(a.initial_position, a.is_strafe_on_x),
            main_coordinate(p, a.is_strafe_on_x),
            main_coordinate(a.decelerating_position, a.is_strafe_on_x),
        ),
        between(
            main_coordinate(a.initial_position, a.is_strafe_on_x),
            main_coordinate(a.decelerating_position, a.is_strafe_on_x),
            main_coordinate(t, a.is_strafe_on_x),
        ),
        main_coordinate(a.decelerating_position, a.is_strafe_on_x) != main_coordinate(t, a.is_strafe_on_x),
    ensures
        n >= 1,
        arrived_at_rest(perfect_run(NavComputerStates::Accelerating(a), running, p, t, n), t),
    decreases dist(main_coordinate(p, a.is_strafe_on_x), main_coordinate(a.decelerating_position, a.is_strafe_on_x)),
{
    let s = NavComputerStates::Accelerating(a);
    let next = perfect_tick(s, running, p, t);
    let fb = a.movement_forward_backward;
    let sx = a.is_strafe_on_x;
    assert(next.1 == motor_orders(fb, false, false));
    assert(ordered_motion(motor_orders(fb, false, false)) == fb);
    let to_target = dist(main_coordinate(t, sx), main_coordinate(p, sx));
    let trigger_to_target = dist(main_coordinate(t, sx), main_coordinate(a.decelerating_position, sx));
    if trigger_to_target >= to_target {
        assert(main_coordinate(p, sx) == main_coordinate(a.decelerating_position, sx));
        let d = Decelerating {
            movement_forward_backward: fb,
            movement_right_left: a.movement_right_left,
            movement_on_theta: a.movement_on_theta,
            is_strafe_on_x: sx,
            previous_position: p,
            initial_position: a.initial_position,
        };
        assert(next.0 == NavComputerStates::Decelerating(d));
        let p2 = next.2;
        let settle = perfect_tick(next.0, next.1, p2, t);
        assert(near_coordinates(p2@, p@));
        assert(settle.1 == all_stop());
        assert(ordered_motion(all_stop()) == Direction::NoMovement);
        assert(settle.2 == p2);
        let r = SlowRide {
            movement_forward_backward: fb,
            movement_right_left: a.movement_right_left,
            movement_on_theta: a.movement_on_theta,
            is_strafe_on_x: sx,
            initial_position: a.initial_position,
        };
        assert(settle.0 == NavComputerStates::SlowRide(r));
        let m = lemma_slow_ride_ends(r, settle.1, settle.2, t);
        assert(perfect_run(next.0, next.1, next.2, t, m + 1) == perfect_run(settle.0, settle.1, settle.2, t, m));
        m + 2
    } else {
        assert(next.0 == s);
        let m = lemma_accelerating_ends(a, next.1, next.2, t);
        m + 1
    }
}


/// Eight tenths of a long distance lies strictly between zero and the distance.
proof fn lemma_eight_tenths_inside(d: int)
    requires
        d > 100 || d < -100,
    ensures
        d > 0 ==> 0 < eight_tenths(d) < d,
        d < 0 ==> d < eight_tenths(d) < 0,
{
    if d > 0 {
        assert(0 < (8 * d) / 10 < d) by (nonlinear_arith)
            requires
                d > 100,
        ;
    } else {
        let e = -d;
        assert(0 < (8 * e) / 10 < e) by (nonlinear_arith)
            requires
                e > 100,
        ;
    }
}

/// Termination with arrival: started at rest at a cardinal heading, the controller
/// driving a chassis that carries out every order exactly (one unit, or one degree,
/// per tick in the commanded direction) comes to rest again with the pose matching
/// the target up to the tolerances.
pub proof fn lemma_reaches_target(t: Position, c: Position, running: MotorOrders) -> (n: nat)
    requires
        cardinal_heading(c.theta),
        t.theta <= 360,
    ensures
        n >= 1,
        arrived_at_rest(perfect_run(NavComputerStates::Stopped(Stopped), running, c, t, n), t),
{
    let s = NavComputerStates::Stopped(Stopped);
    let next = perfect_tick(s, running, c, t);
    assert(next.1 == all_stop());
    assert(ordered_motion(all_stop()) == Direction::NoMovement);
    assert(next.2 == c);
    assert(next.0 == stopped_next(t, c));
    let h = heading_of(c.theta as int);
    let mx = robot_frame(
        if t.x_coordinate > c.x_coordinate { Direction::Forward } else { Direction::Backward },
        h,
    );
    let my = robot_frame(if t.y_coordinate > c.y_coordinate { Direction::Right } else { Direction::Left }, h);
    let rot = if t.theta < c.theta { Direction::RotateLeft } else { Direction::RotateRight };
    let sx = h == Heading::East || h == Heading::West;
    let fb = if sx { my } else { mx };
    let rl = if sx { mx } else { my };
    let main_distance = if sx {
        dist(t.y_coordinate as int, c.y_coordinate as int)
    } else {
        dist(t.x_coordinate as int, c.x_coordinate as int)
    };
    assert(is_translation(fb) && is_translation(rl));
    assert(map_direction(fb, h) == main_direction(c, t, sx));
    assert(map_direction(rl, h) == side_direction(c, t, sx));
    assert(next.0 == planned_motion(fb, rl, rot, sx, main_distance, t, c));
    if main_distance <= 100 {
        let r = SlowRide {
            movement_forward_backward: fb,
            movement_right_left: rl,
            movement_on_theta: rot,
            is_strafe_on_x: sx,
            initial_position: c,
        };
        assert(next.0 == NavComputerStates::SlowRide(r));
        let m = lemma_slow_ride_ends(r, next.1, next.2, t);
        m + 1
    } else {
        let decel = deceleration_point(t, c);
        lemma_eight_tenths_inside(main_coordinate(t, sx) - main_coordinate(c, sx));
        assert(main_coordinate(decel, sx) == main_coordinate(c, sx) + eight_tenths(
            main_coordinate(t, sx) - main_coordinate(c, sx),
        ));
        let a = Accelerating {
            movement_forward_backward: fb,
            movement_right_left: rl,
            movement_on_theta: rot,
            is_strafe_on_x: sx,
            decelerating_position: decel,
            initial_position: c,
        };
        assert(next.0 == NavComputerStates::Accelerating(a));
        let m = lemma_accelerating_ends(a, next.1, next.2, t);
        m + 1
    }
}

} // verus!
