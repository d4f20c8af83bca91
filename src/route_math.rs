use vstd::prelude::*;
use crate::moves::{Direction, DirectionMove};
use crate::pose::{PoseView, MAX_HEADING};
use vstd::arithmetic::div_mod::lemma_mod_multiples_vanish;

verus! {

/// Headings at which a recorded move can be resolved to a coordinate change.
pub open spec fn is_cardinal(theta: int) -> bool {
    theta == 0 || theta == 90 || theta == 180 || theta == 270
}

/// The move's displacement in the robot's own frame: (ahead, leftward).
pub open spec fn local_offset(m: DirectionMove) -> (int, int) {
    match m.direction_type {
        Direction::Forward => (m.value as int, 0),
        Direction::Backward => (-m.value, 0),
        Direction::Left => (0, m.value as int),
        Direction::Right => (0, -m.value),
        _ => (0, 0),
    }
}

/// A displacement (ahead, leftward) seen from a robot at a cardinal heading,
/// expressed on the map's axes.
pub open spec fn world_offset(theta: int, ahead: int, leftward: int) -> (int, int) {
    if theta == 0 {
        (ahead, leftward)
    } else if theta == 90 {
        (leftward, -ahead)
    } else if theta == 180 {
        (-ahead, -leftward)
    } else {
        (-leftward, ahead)
    }
}

/// The heading after a move: rotations turn it modulo 360, other moves keep it.
pub open spec fn turned_heading(theta: int, m: DirectionMove) -> int {
    match m.direction_type {
        Direction::RotateRight => (theta + m.value) % 360,
        Direction::RotateLeft => (theta - m.value) % 360,
        _ => theta,
    }
}

/// The pose reached by applying one recorded move. The result is unnamed; from a
/// heading that is not cardinal the move resolves to nothing.
pub open spec fn next_pose(p: PoseView, m: DirectionMove) -> PoseView {
    if is_cardinal(p.theta) {
        let d = world_offset(p.theta, local_offset(m).0, local_offset(m).1);
        PoseView { name: None, x: p.x + d.0, y: p.y + d.1, theta: turned_heading(p.theta, m) }
    } else {
        PoseView { name: None, ..p }
    }
}

/// The move that undoes another: forward and backward, left and right, and the two
/// rotations trade places.
pub open spec fn inverse_move(m: DirectionMove) -> DirectionMove {
    let d = match m.direction_type {
        Direction::Forward => Direction::Backward,
        Direction::Backward => Direction::Forward,
        Direction::Left => Direction::Right,
        Direction::Right => Direction::Left,
        Direction::RotateLeft => Direction::RotateRight,
        Direction::RotateRight => Direction::RotateLeft,
        Direction::NoMovement => Direction::NoMovement,
    };
    DirectionMove { direction_type: d, value: m.value }
}

/// The pose from which a recorded move leads to `p`, as backward resolution computes it.
pub open spec fn previous_pose(p: PoseView, m: DirectionMove) -> PoseView {
    next_pose(p, inverse_move(m))
}

/// A pose with its name removed.
pub open spec fn unnamed(p: PoseView) -> PoseView {
    PoseView { name: None, ..p }
}

/// A pose with the given name.
pub open spec fn named(p: PoseView, n: Seq<char>) -> PoseView {
    PoseView { name: Some(n), ..p }
}

/// The coordinates fit in an `i32` and the heading is one a pose can be built with.
pub open spec fn pose_in_range(p: PoseView) -> bool {
    i32::MIN <= p.x <= i32::MAX && i32::MIN <= p.y <= i32::MAX && 0 <= p.theta <= MAX_HEADING
}

/// The poses visited when the moves are applied one after another from `p`, `p` first.
#[verifier::opaque]
pub open spec fn walk_forward(p: PoseView, ms: Seq<DirectionMove>) -> Seq<PoseView>
    decreases ms.len(),
{
    if ms.len() == 0 {
        seq![p]
    } else {
        let w = walk_forward(p, ms.drop_last());
        w.push(next_pose(w.last(), ms.last()))
    }
}

/// The poses from which the moves, applied in order, lead to `e`, `e` last.
#[verifier::opaque]
pub open spec fn walk_backward(e: PoseView, ms: Seq<DirectionMove>) -> Seq<PoseView>
    decreases ms.len(),
{
    if ms.len() == 0 {
        seq![e]
    } else {
        let rest = walk_backward(e, ms.drop_first());
        seq![previous_pose(rest[0], ms[0])] + rest
    }
}

/// Every pose after the first can be built.
pub open spec fn later_in_range(w: Seq<PoseView>) -> bool {
    forall|i: int| 1 <= i < w.len() ==> #[trigger] pose_in_range(w[i])
}

/// Every pose before the last can be built.
pub open spec fn earlier_in_range(w: Seq<PoseView>) -> bool {
    forall|i: int| 0 <= i < w.len() - 1 ==> #[trigger] pose_in_range(w[i])
}

/// A route resolved forward from a known start: the walk, with its last pose named
/// after the destination.
pub open spec fn route_from_start(s: PoseView, ms: Seq<DirectionMove>, destination: Seq<char>) -> Seq<PoseView> {
    let w = walk_forward(s, ms);
    if ms.len() == 0 {
        w
    } else {
        w.update(ms.len() as int, named(w.last(), destination))
    }
}

/// A route resolved backward from a known destination: the walk, with its first pose
/// named after the start.
pub open spec fn route_from_end(e: PoseView, ms: Seq<DirectionMove>, start: Seq<char>) -> Seq<PoseView> {
    let w = walk_backward(e, ms);
    if ms.len() == 0 {
        w
    } else {
        w.update(0, named(w[0], start))
    }
}

/// Every rotation among the moves turns by a whole number of quarter turns.
pub open spec fn quarter_turns_only(ms: Seq<DirectionMove>) -> bool {
    forall|i: int|
        0 <= i < ms.len() && (#[trigger] ms[i].direction_type == Direction::RotateLeft
            || ms[i].direction_type == Direction::RotateRight) ==> ms[i].value % 90 == 0
}

/// The forward walk step by step: it starts at `p` and each pose follows from the one
/// before by the matching move.
pub proof fn lemma_walk_forward_steps(p: PoseView, ms: Seq<DirectionMove>)
    ensures
        walk_forward(p, ms).len() == ms.len() + 1,
        walk_forward(p, ms)[0] == p,
        forall|i: int|
            0 <= i < ms.len() ==> #[trigger] walk_forward(p, ms)[i + 1] == next_pose(
                walk_forward(p, ms)[i],
                ms[i],
            ),
    decreases ms.len(),
{
    reveal(walk_forward);
    if ms.len() > 0 {
        lemma_walk_forward_steps(p, ms.drop_last());
        let w = walk_forward(p, ms.drop_last());
        assert forall|i: int| 0 <= i < ms.len() implies #[trigger] walk_forward(p, ms)[i + 1]
            == next_pose(walk_forward(p, ms)[i], ms[i]) by {
            if i < ms.len() - 1 {
                assert(ms.drop_last()[i] == ms[i]);
            }
        }
    }
}

/// The backward walk step by step: it ends at `e` and each pose leads to the next by
/// the matching move, resolved backward.
pub proof fn lemma_walk_backward_steps(e: PoseView, ms: Seq<DirectionMove>)
    ensures
        walk_backward(e, ms).len() == ms.len() + 1,
        walk_backward(e, ms)[ms.len() as int] == e,
        forall|i: int|
            0 <= i < ms.len() ==> #[trigger] walk_backward(e, ms)[i] == previous_pose(
                walk_backward(e, ms)[i + 1],
                ms[i],
            ),
    decreases ms.len(),
{
    reveal(walk_backward);
    if ms.len() > 0 {
        lemma_walk_backward_steps(e, ms.drop_first());
        assert forall|i: int| 0 <= i < ms.len() implies #[trigger] walk_backward(e, ms)[i]
            == previous_pose(walk_backward(e, ms)[i + 1], ms[i]) by {
            if i > 0 {
                assert(ms.drop_first()[i - 1] == ms[i]);
            }
        }
    }
}


/// A move whose rotation is a whole number of quarter turns, when the heading is cardinal.
pub open spec fn resolvable_at(theta: int, m: DirectionMove) -> bool {
    is_cardinal(theta) ==> ((m.direction_type == Direction::RotateLeft || m.direction_type
        == Direction::RotateRight) ==> m.value % 90 == 0)
}

/// Undoing a move restores the pose (without its name), and the heading stays cardinal
/// exactly when it was.
pub proof fn lemma_step_undone(p: PoseView, m: DirectionMove)
    requires
        0 <= p.theta,
        resolvable_at(p.theta, m),
    ensures
        previous_pose(next_pose(p, m), m) == unnamed(p),
        is_cardinal(next_pose(p, m).theta) == is_cardinal(p.theta),
        0 <= next_pose(p, m).theta,
{
    if is_cardinal(p.theta) {
        let q = next_pose(p, m);
        let v = m.value as int;
        let t = p.theta;
        match m.direction_type {
            Direction::RotateRight => {
                let r = (t + v) % 360;
                let k = (t + v) / 360;
                assert(t + v == 360 * k + r) by {
                    vstd::arithmetic::div_mod::lemma_fundamental_div_mod(t + v, 360);
                }
                assert(r % 90 == 0) by (nonlinear_arith)
                    requires
                        t + v == 360 * k + r,
                        v % 90 == 0,
                        t % 90 == 0,
                        0 <= r < 360,
                ;
                assert((r - v) % 360 == t) by {
                    lemma_mod_multiples_vanish(-k, t, 360);
                }
            },
            Direction::RotateLeft => {
                let r = (t - v) % 360;
                let k = (t - v) / 360;
                assert(t - v == 360 * k + r) by {
                    vstd::arithmetic::div_mod::lemma_fundamental_div_mod(t - v, 360);
                }
                assert(r % 90 == 0) by (nonlinear_arith)
                    requires
                        t - v == 360 * k + r,
                        v % 90 == 0,
                        t % 90 == 0,
                        0 <= r < 360,
                ;
                assert((r + v) % 360 == t) by {
                    lemma_mod_multiples_vanish(-k, t, 360);
                }
            },
            _ => {},
        }
    }
}

/// Along a forward walk the heading stays cardinal exactly when the start's was, as
/// long as every rotation is a whole number of quarter turns.
pub proof fn lemma_walk_keeps_cardinal(p: PoseView, ms: Seq<DirectionMove>, i: int)
    requires
        0 <= p.theta,
        is_cardinal(p.theta) ==> quarter_turns_only(ms),
        0 <= i <= ms.len(),
    ensures
        is_cardinal(walk_forward(p, ms)[i].theta) == is_cardinal(p.theta),
        0 <= walk_forward(p, ms)[i].theta,
    decreases i,
{
    lemma_walk_forward_steps(p, ms);
    if i > 0 {
        lemma_walk_keeps_cardinal(p, ms, i - 1);
        let w = walk_forward(p, ms);
        let j = i - 1;
        assert(w[j + 1] == next_pose(w[j], ms[j]));
        assert(resolvable_at(w[i - 1].theta, ms[i - 1]));
        lemma_step_undone(w[i - 1], ms[i - 1]);
    }
}

/// A right turn by a quarter.
pub open spec fn quarter_right() -> DirectionMove {
    DirectionMove { direction_type: Direction::RotateRight, value: 90 }
}

/// A left turn by a quarter.
pub open spec fn quarter_left() -> DirectionMove {
    DirectionMove { direction_type: Direction::RotateLeft, value: 90 }
}

/// Heading wraparound: from heading 0 a quarter turn left faces 270 and a quarter turn
/// right faces 90; four quarter turns right bring any pose back to where it started
/// (resolved poses carry no name).
pub proof fn lemma_quarter_turns(p: PoseView)
    requires
        0 <= p.theta,
    ensures
        p.theta == 0 ==> next_pose(p, quarter_left()).theta == 270,
        p.theta == 0 ==> next_pose(p, quarter_right()).theta == 90,
        next_pose(
            next_pose(next_pose(next_pose(p, quarter_right()), quarter_right()), quarter_right()),
            quarter_right(),
        ) == unnamed(p),
{
}

/// Round trip of route resolution: resolving the moves forward from a named start,
/// then resolving the same moves backward from the destination that was reached,
/// gives back the very same sequence of poses. Every rotation must be a whole number
/// of quarter turns when the start heading is cardinal; otherwise the heading leaves
/// the four cardinal directions and backward resolution cannot undo the turn.
pub proof fn lemma_route_round_trip(
    s: PoseView,
    ms: Seq<DirectionMove>,
    start: Seq<char>,
    destination: Seq<char>,
)
    requires
        s.name == Some(start),
        0 <= s.theta,
        is_cardinal(s.theta) ==> quarter_turns_only(ms),
    ensures
        route_from_end(route_from_start(s, ms, destination).last(), ms, start) == route_from_start(
            s,
            ms,
            destination,
        ),
{
    let n = ms.len() as int;
    let w = walk_forward(s, ms);
    let f = route_from_start(s, ms, destination);
    lemma_walk_forward_steps(s, ms);
    if n > 0 {
        assert(f == w.update(n, named(w[n], destination)));
        let e = f.last();
        assert(e == named(w[n], destination));
        let b = walk_backward(e, ms);
        lemma_walk_backward_steps(e, ms);
        let r = route_from_end(e, ms, start);
        assert(r == b.update(0, named(b[0], start)));
        assert forall|i: int| 0 <= i < r.len() implies r[i] == f[i] by {
            if i == 0 {
                lemma_backward_matches(s, ms, destination, 0);
            } else if i < n {
                lemma_backward_matches(s, ms, destination, i);
                let j = i - 1;
                assert(w[j + 1] == next_pose(w[j], ms[j]));
            }
        }
        assert(r =~= f);
    } else {
        lemma_walk_backward_steps(f.last(), ms);
        assert(route_from_end(f.last(), ms, start) =~= f);
    }
}

/// One step of the round trip, counted down from the destination: the backward walk
/// meets the forward walk (without names) at every pose before the last.
proof fn lemma_backward_matches(s: PoseView, ms: Seq<DirectionMove>, destination: Seq<char>, i: int)
    requires
        0 <= s.theta,
        is_cardinal(s.theta) ==> quarter_turns_only(ms),
        0 <= i < ms.len(),
    ensures
        walk_backward(route_from_start(s, ms, destination).last(), ms)[i] == unnamed(
            walk_forward(s, ms)[i],
        ),
    decreases ms.len() - i,
{
    let n = ms.len() as int;
    let w = walk_forward(s, ms);
    let e = route_from_start(s, ms, destination).last();
    let b = walk_backward(e, ms);
    lemma_walk_forward_steps(s, ms);
    lemma_walk_backward_steps(e, ms);
    lemma_walk_keeps_cardinal(s, ms, i);
    assert(resolvable_at(w[i].theta, ms[i]));
    lemma_step_undone(w[i], ms[i]);
    assert(w[i + 1] == next_pose(w[i], ms[i]));
    if i + 1 < n {
        lemma_backward_matches(s, ms, destination, i + 1);
        assert(previous_pose(b[i + 1], ms[i]) == previous_pose(w[i + 1], ms[i]));
    } else {
        assert(b[i + 1] == e);
        assert(previous_pose(e, ms[i]) == previous_pose(w[i + 1], ms[i]));
    }
}

} // verus!
