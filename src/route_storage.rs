use vstd::prelude::*;
use vstd::arithmetic::div_mod::lemma_mod_multiples_vanish;
use crate::moves::{Direction, DirectionMove};
use crate::pose::{Position, PoseView, RobotError, MAX_HEADING};
use std::collections::VecDeque;
use crate::requests::StoreRouteRequest;
use crate::route_math::{
    is_cardinal, lemma_route_round_trip, quarter_turns_only,
    earlier_in_range, inverse_move, later_in_range, lemma_walk_backward_steps,
    lemma_walk_forward_steps, next_pose, pose_in_range, previous_pose, route_from_end,
    route_from_start, walk_backward, walk_forward,
};

verus! {

/// The heading after turning a cardinal heading by `v` degrees, to the right or to the left.
fn turn_heading(theta: u16, v: i32, right: bool) -> (r: u16)
    requires
        theta < 360,
    ensures
        right ==> r as int == (theta + v) % 360,
        !right ==> r as int == (theta - v) % 360,
{
    let a: u64 = if v >= 0 { v as u64 } else { (-(v as i64)) as u64 };
    let am: i64 = (a % 360) as i64;
    let d: i64 = if (v >= 0) == right { am } else { -am };
    let s: i64 = theta as i64 + d + 360;
    proof {
        let q = (a / 360) as int;
        assert(a as int == 360 * q + am) by {
            vstd::arithmetic::div_mod::lemma_fundamental_div_mod(a as int, 360);
        }
        if d == am {
            assert(s == 360 * (1 - q) + (theta + a));
            lemma_mod_multiples_vanish(1 - q, theta + a, 360);
        } else {
            assert(s == 360 * (1 + q) + (theta - a));
            lemma_mod_multiples_vanish(1 + q, theta - a, 360);
        }
    }
    ((s as u64) % 360) as u16
}

/// Adds a displacement to a coordinate, or reports that the sum leaves the `i32` range.
fn shifted(c: i32, d: i64) -> (r: Option<i32>)
    requires
        -0x1_0000_0000 <= d <= 0x1_0000_0000,
    ensures
        r is Some <==> i32::MIN <= c + d <= i32::MAX,
        r is Some ==> r->Some_0 == c + d,
{
    let s: i64 = c as i64 + d;
    if s < i32::MIN as i64 || s > i32::MAX as i64 {
        None
    } else {
        Some(s as i32)
    }
}

/// Applies one recorded move to a pose; the result is unnamed.
fn apply_move(p: &Position, m: DirectionMove) -> (r: Result<Position, RobotError>)
    ensures
        r is Ok <==> pose_in_range(next_pose(p@, m)),
        r is Ok ==> r->Ok_0@ == next_pose(p@, m),
        r is Err ==> r->Err_0 == (if p.theta > MAX_HEADING {
            RobotError::InvalidPose
        } else {
            RobotError::CoordinateOutOfRange
        }),
{
    let t = p.theta;
    if !(t == 0 || t == 90 || t == 180 || t == 270) {
        return Position::new(None, p.x_coordinate, p.y_coordinate, t);
    }
    let v = m.value as i64;
    let (ahead, leftward): (i64, i64) = match m.direction_type {
        Direction::Forward => (v, 0),
        Direction::Backward => (-v, 0),
        Direction::Left => (0, v),
        Direction::Right => (0, -v),
        _ => (0, 0),
    };
    let (dx, dy): (i64, i64) = if t == 0 {
        (ahead, leftward)
    } else if t == 90 {
        (leftward, -ahead)
    } else if t == 180 {
        (-ahead, -leftward)
    } else {
        (-leftward, ahead)
    };
    let theta = match m.direction_type {
        Direction::RotateRight => turn_heading(t, m.value, true),
        Direction::RotateLeft => turn_heading(t, m.value, false),
        _ => t,
    };
    let x = shifted(p.x_coordinate, dx);
    let y = shifted(p.y_coordinate, dy);
    match (x, y) {
        (Some(x), Some(y)) => Ok(Position { position_name: None, x_coordinate: x, y_coordinate: y, theta }),
        _ => Err(RobotError::CoordinateOutOfRange),
    }
}

/// The move that undoes `m`.
fn invert_move(m: DirectionMove) -> (r: DirectionMove)
    ensures
        r == inverse_move(m),
{
    let d = match m.direction_type {
        Direction::Forward => Direction::Backward,
        Direction::Backward => Direction::Forward,
        Direction::Left => Direction::Right,
        Direction::Right => Direction::Left,
        Direction::RotateLeft => Direction::RotateRight,
        Direction::RotateRight => Direction::RotateLeft,
        Direction::NoMovement => Direction::NoMovement,
    };
    DirectionMove { direction_type: d, value: m.value }
}

/// The pose reached from `starting_position` by one recorded move, relative to its
/// heading. Fails when the heading exceeds 360 degrees or a coordinate leaves the
/// `i32` range.
pub fn move_to_next_position(starting_position: Position, direction_move: DirectionMove) -> (r: Result<Position, RobotError>)
    ensures
        r is Ok <==> pose_in_range(next_pose(starting_position@, direction_move)),
        r is Ok ==> r->Ok_0@ == next_pose(starting_position@, direction_move),
        r is Err ==> r->Err_0 == (if starting_position.theta > MAX_HEADING {
            RobotError::InvalidPose
        } else {
            RobotError::CoordinateOutOfRange
        }),
{
    apply_move(&starting_position, direction_move)
}

/// The pose from which one recorded move leads to `ending_position`: the move is
/// undone, with forward and backward, left and right, and the two rotations swapped.
pub fn move_to_previous_position(ending_position: Position, direction_move: DirectionMove) -> (r: Result<Position, RobotError>)
    ensures
        r is Ok <==> pose_in_range(previous_pose(ending_position@, direction_move)),
        r is Ok ==> r->Ok_0@ == previous_pose(ending_position@, direction_move),
        r is Err ==> r->Err_0 == (if ending_position.theta > MAX_HEADING {
            RobotError::InvalidPose
        } else {
            RobotError::CoordinateOutOfRange
        }),
{
    apply_move(&ending_position, invert_move(direction_move))
}


/// The views of a sequence of poses.
pub open spec fn poses(v: Seq<Position>) -> Seq<PoseView> {
    v.map_values(|p: Position| p@)
}

/// Some pose in the list carries the name.
pub open spec fn has_named(ps: Seq<PoseView>, n: Seq<char>) -> bool {
    exists|i: int| 0 <= i < ps.len() && #[trigger] ps[i].name == Some(n)
}

/// `i` is the first place in the list holding a pose with the name.
pub open spec fn is_first_named(ps: Seq<PoseView>, n: Seq<char>, i: int) -> bool {
    &&& 0 <= i < ps.len()
    &&& ps[i].name == Some(n)
    &&& forall|j: int| 0 <= j < i ==> #[trigger] ps[j].name != Some(n)
}

/// The oldest pose in the list with the name (meaningful when there is one).
pub open spec fn first_named(ps: Seq<PoseView>, n: Seq<char>) -> PoseView {
    ps[choose|i: int| is_first_named(ps, n, i)]
}

/// `i` is the first place in the list holding a pose with these exact coordinates.
pub open spec fn is_first_at(ps: Seq<PoseView>, x: int, y: int, theta: int, i: int) -> bool {
    &&& 0 <= i < ps.len()
    &&& ps[i].x == x && ps[i].y == y && ps[i].theta == theta
    &&& forall|j: int|
        0 <= j < i ==> !(#[trigger] ps[j].x == x && ps[j].y == y && ps[j].theta == theta)
}

/// The error reported when a route cannot be resolved from a known pose `p`.
pub open spec fn resolution_error(p: PoseView) -> RobotError {
    if p.theta > MAX_HEADING {
        RobotError::InvalidPose
    } else {
        RobotError::CoordinateOutOfRange
    }
}

/// The route that storing `ms` between `start` and `destination` resolves to, given the
/// known poses `ps`: forward from the start if it is known, else backward from the
/// destination if that is known.
pub open spec fn resolve_route(
    ps: Seq<PoseView>,
    ms: Seq<DirectionMove>,
    start: Seq<char>,
    destination: Seq<char>,
) -> Result<Seq<PoseView>, RobotError> {
    if ms.len() == 0 {
        Err(RobotError::InvalidRoute)
    } else if has_named(ps, start) {
        let p = first_named(ps, start);
        if later_in_range(walk_forward(p, ms)) {
            Ok(route_from_start(p, ms, destination))
        } else {
            Err(resolution_error(p))
        }
    } else if has_named(ps, destination) {
        let e = first_named(ps, destination);
        if earlier_in_range(walk_backward(e, ms)) {
            Ok(route_from_end(e, ms, start))
        } else {
            Err(resolution_error(e))
        }
    } else {
        Err(RobotError::UnknownEndpoints)
    }
}

/// The end of a resolved route that was not known before: the destination when the
/// start was known, the start otherwise.
pub open spec fn new_endpoint(ps: Seq<PoseView>, route: Seq<PoseView>, start: Seq<char>) -> PoseView {
    if has_named(ps, start) {
        route.last()
    } else {
        route[0]
    }
}

/// Copies a list of poses.
pub fn copy_positions(v: &Vec<Position>) -> (r: Vec<Position>)
    ensures
        r@ == v@,
{
    let mut out: Vec<Position> = Vec::new();
    let mut i: usize = 0;
    while i < v.len()
        invariant
            0 <= i <= v@.len(),
            out@ == v@.subrange(0, i as int),
        decreases v@.len() - i,
    {
        out.push(v[i].duplicate());
        i += 1;
        assert(out@ =~= v@.subrange(0, i as int));
    }
    assert(v@.subrange(0, v@.len() as int) =~= v@);
    out
}

/// An ordered list of known poses. Names may repeat; lookups return the oldest match.
#[derive(Debug, Clone)]
pub struct PositionStorage {
    positions: Vec<Position>,
}

impl View for PositionStorage {
    type V = Seq<PoseView>;

    closed spec fn view(&self) -> Seq<PoseView> {
        poses(self.positions@)
    }
}

impl PositionStorage {
    pub fn new() -> (r: PositionStorage)
        ensures
            r@ == Seq::<PoseView>::empty(),
    {
        let r = PositionStorage { positions: Vec::new() };
        assert(r@ =~= Seq::<PoseView>::empty());
        r
    }

    /// Appends a copy of the pose.
    pub fn store_position(&mut self, position: &Position)
        ensures
            final(self)@ == old(self)@.push(position@),
    {
        self.positions.push(position.duplicate());
        assert(poses(self.positions@) =~= poses(old(self).positions@).push(position@));
    }

    pub fn get_positions(&self) -> (r: Vec<Position>)
        ensures
            poses(r@) == self@,
    {
        copy_positions(&self.positions)
    }

    /// The oldest stored pose with the name.
    pub fn search_by_name(&self, position_name: String) -> (r: Result<Position, RobotError>)
        ensures
            r is Ok <==> has_named(self@, position_name@),
            r is Ok ==> exists|i: int| is_first_named(self@, position_name@, i) && r->Ok_0@ == self@[i],
            r is Err ==> r->Err_0 == RobotError::PositionNotFound,
    {
        let mut i: usize = 0;
        while i < self.positions.len()
            invariant
                0 <= i <= self@.len(),
                self@.len() == self.positions@.len(),
                forall|j: int| 0 <= j < i ==> #[trigger] self@[j].name != Some(position_name@),
            decreases self.positions@.len() - i,
        {
            let p = &self.positions[i];
            assert(self@[i as int] == p@);
            match &p.position_name {
                Some(n) => {
                    if *n == position_name {
                        assert(is_first_named(self@, position_name@, i as int));
                        return Ok(p.duplicate());
                    }
                },
                None => {},
            }
            i += 1;
        }
        Err(RobotError::PositionNotFound)
    }

    /// The oldest stored pose with exactly these coordinates and heading.
    pub fn search_by_coordinates(&self, position_x: i32, position_y: i32, position_theta: u16) -> (r: Result<Position, RobotError>)
        ensures
            r is Ok <==> exists|i: int|
                0 <= i < self@.len() && #[trigger] self@[i].x == position_x && self@[i].y == position_y
                    && self@[i].theta == position_theta,
            r is Ok ==> exists|i: int|
                is_first_at(self@, position_x as int, position_y as int, position_theta as int, i)
                    && r->Ok_0@ == self@[i],
            r is Err ==> r->Err_0 == RobotError::PositionNotFound,
    {
        let mut i: usize = 0;
        while i < self.positions.len()
            invariant
                0 <= i <= self@.len(),
                self@.len() == self.positions@.len(),
                forall|j: int|
                    0 <= j < i ==> !(#[trigger] self@[j].x == position_x && self@[j].y == position_y
                        && self@[j].theta == position_theta),
            decreases self.positions@.len() - i,
        {
            let p = &self.positions[i];
            assert(self@[i as int] == p@);
            if p.x_coordinate == position_x && p.y_coordinate == position_y && p.theta == position_theta {
                assert(is_first_at(self@, position_x as int, position_y as int, position_theta as int, i as int));
                return Ok(p.duplicate());
            }
            i += 1;
        }
        Err(RobotError::PositionNotFound)
    }

    /// Some stored pose carries the name.
    pub fn is_in_storage_by_name(&self, position_name: String) -> (r: bool)
        ensures
            r == has_named(self@, position_name@),
    {
        let mut i: usize = 0;
        while i < self.positions.len()
            invariant
                0 <= i <= self@.len(),
                self@.len() == self.positions@.len(),
                forall|j: int| 0 <= j < i ==> #[trigger] self@[j].name != Some(position_name@),
            decreases self.positions@.len() - i,
        {
            let p = &self.positions[i];
            assert(self@[i as int] == p@);
            match &p.position_name {
                Some(n) => {
                    if *n == position_name {
                        assert(self@[i as int].name == Some(position_name@));
                        return true;
                    }
                },
                None => {},
            }
            i += 1;
        }
        false
    }
}

/// The key of a stored route: its start and destination names, in that order.
#[derive(Debug, Clone, PartialEq, Eq, Hash)]
pub struct RouteKey {
    pub start_name: String,
    pub destination_name: String,
}

impl View for RouteKey {
    type V = (Seq<char>, Seq<char>);

    open spec fn view(&self) -> (Seq<char>, Seq<char>) {
        (self.start_name@, self.destination_name@)
    }
}

impl RouteKey {
    pub fn new(start_name: String, destination_name: String) -> (r: RouteKey)
        ensures
            r == (RouteKey { start_name, destination_name }),
    {
        RouteKey { start_name, destination_name }
    }

    /// A copy of the key.
    pub fn duplicate(&self) -> (r: RouteKey)
        ensures
            r == *self,
    {
        RouteKey { start_name: self.start_name.clone(), destination_name: self.destination_name.clone() }
    }

    pub fn get_start_name(&self) -> (r: String)
        ensures
            r == self.start_name,
    {
        self.start_name.clone()
    }

    pub fn get_destination_name(&self) -> (r: String)
        ensures
            r == self.destination_name,
    {
        self.destination_name.clone()
    }

    /// Same start and same destination.
    pub fn equals(&self, other: RouteKey) -> (r: bool)
        ensures
            r == (self@ == other@),
    {
        self.start_name == other.start_name && self.destination_name == other.destination_name
    }

    /// The other key names the same two places the other way round.
    pub fn equals_reversed(&self, other: RouteKey) -> (r: bool)
        ensures
            r == (self@.0 == other@.1 && self@.1 == other@.0),
    {
        self.start_name == other.destination_name && self.destination_name == other.start_name
    }
}


/// The oldest pose with a name is the one at its first place in the list.
pub proof fn lemma_first_named_unique(ps: Seq<PoseView>, n: Seq<char>, i: int)
    requires
        is_first_named(ps, n, i),
    ensures
        first_named(ps, n) == ps[i],
        has_named(ps, n),
{
    let k = choose|k: int| is_first_named(ps, n, k);
    assert(is_first_named(ps, n, k));
    if k < i {
        assert(ps[k].name != Some(n));
    } else if k > i {
        assert(ps[i].name != Some(n));
    }
}

/// A pose with a name has a first place in the list.
pub proof fn lemma_first_named_exists(ps: Seq<PoseView>, n: Seq<char>)
    requires
        has_named(ps, n),
    ensures
        exists|i: int| is_first_named(ps, n, i),
    decreases ps.len(),
{
    let k = choose|k: int| 0 <= k < ps.len() && #[trigger] ps[k].name == Some(n);
    if ps.last().name == Some(n) && !has_named(ps.drop_last(), n) {
        assert forall|j: int| 0 <= j < ps.len() - 1 implies #[trigger] ps[j].name != Some(n) by {
            assert(ps.drop_last()[j] == ps[j]);
        }
        assert(is_first_named(ps, n, ps.len() - 1));
    } else {
        if k == ps.len() - 1 {
            assert(has_named(ps.drop_last(), n));
        } else {
            assert(ps.drop_last()[k].name == Some(n));
        }
        lemma_first_named_exists(ps.drop_last(), n);
        let i = choose|i: int| is_first_named(ps.drop_last(), n, i);
        assert(is_first_named(ps, n, i)) by {
            assert forall|j: int| 0 <= j < i implies #[trigger] ps[j].name != Some(n) by {
                assert(ps.drop_last()[j] == ps[j]);
            }
        }
    }
}

impl StoreRouteRequest {
    /// A copy of the request.
    pub fn duplicate(&self) -> (r: StoreRouteRequest)
        ensures
            r.start_position_name == self.start_position_name,
            r.route@ == self.route@,
            r.destination_position_name == self.destination_position_name,
    {
        StoreRouteRequest {
            start_position_name: self.start_position_name.clone(),
            route: self.get_route(),
            destination_position_name: self.destination_position_name.clone(),
        }
    }
}

/// The poses visited from `start` by the moves in order, `start` first.
fn walk_from(start: Position, ms: &VecDeque<DirectionMove>) -> (r: Result<Vec<Position>, RobotError>)
    ensures
        r is Ok <==> later_in_range(walk_forward(start@, ms@)),
        r is Ok ==> poses(r->Ok_0@) == walk_forward(start@, ms@),
        r is Err ==> r->Err_0 == resolution_error(start@),
{
    let n = ms.len();
    let ghost s = start@;
    let ghost w = walk_forward(s, ms@);
    proof {
        lemma_walk_forward_steps(s, ms@);
    }
    let mut current = start.duplicate();
    let mut out: Vec<Position> = Vec::new();
    out.push(start);
    let mut i: usize = 0;
    while i < n
        invariant
            n == ms@.len(),
            0 <= i <= n,
            s == start@,
            w == walk_forward(s, ms@),
            w.len() == n + 1,
            w[0] == s,
            forall|k: int| 0 <= k < n ==> #[trigger] w[k + 1] == next_pose(w[k], ms@[k]),
            out@.len() == i + 1,
            forall|k: int| 0 <= k <= i ==> (#[trigger] out@[k])@ == w[k],
            current@ == w[i as int],
            forall|k: int| 1 <= k <= i ==> #[trigger] pose_in_range(w[k]),
            i > 0 ==> s.theta <= MAX_HEADING,
        decreases n - i,
    {
        let m = ms[i];
        match apply_move(&current, m) {
            Ok(next) => {
                out.push(next.duplicate());
                current = next;
            },
            Err(e) => {
                assert(w[i + 1] == next_pose(w[i as int], ms@[i as int]));
                assert(!pose_in_range(w[i + 1]));
                assert(!later_in_range(w));
                if i > 0 {
                    assert(pose_in_range(w[i as int]));
                }
                return Err(e);
            },
        }
        i += 1;
    }
    assert(poses(out@) =~= w);
    Ok(out)
}

/// The poses from which the moves in order lead to `end`, `end` last.
fn walk_to(end: Position, ms: &VecDeque<DirectionMove>) -> (r: Result<Vec<Position>, RobotError>)
    ensures
        r is Ok <==> earlier_in_range(walk_backward(end@, ms@)),
        r is Ok ==> poses(r->Ok_0@) == walk_backward(end@, ms@),
        r is Err ==> r->Err_0 == resolution_error(end@),
{
    let n = ms.len();
    let ghost e = end@;
    let ghost b = walk_backward(e, ms@);
    proof {
        lemma_walk_backward_steps(e, ms@);
    }
    let mut current = end.duplicate();
    let mut out: Vec<Position> = Vec::new();
    out.push(end);
    let mut j: usize = n;
    while j > 0
        invariant
            n == ms@.len(),
            0 <= j <= n,
            e == end@,
            b == walk_backward(e, ms@),
            b.len() == n + 1,
            b[n as int] == e,
            forall|k: int| 0 <= k < n ==> #[trigger] b[k] == previous_pose(b[k + 1], ms@[k]),
            poses(out@) == b.subrange(j as int, n + 1),
            current@ == b[j as int],
            forall|k: int| j <= k < n ==> #[trigger] pose_in_range(b[k]),
            j < n ==> e.theta <= MAX_HEADING,
        decreases j,
    {
        let m = ms[j - 1];
        match apply_move(&current, invert_move(m)) {
            Ok(prev) => {
                let ghost before = out@;
                out.insert(0, prev.duplicate());
                assert(poses(out@) =~= seq![prev@] + poses(before));
                assert(poses(out@) =~= b.subrange(j - 1, n + 1));
                current = prev;
            },
            Err(err) => {
                assert(b[j - 1] == previous_pose(b[j as int], ms@[j - 1]));
                assert(!pose_in_range(b[j - 1]));
                assert(!earlier_in_range(b));
                if j < n {
                    assert(pose_in_range(b[j as int]));
                }
                return Err(err);
            },
        }
        j -= 1;
    }
    assert(poses(out@) =~= b);
    Ok(out)
}

/// Known poses and the routes recorded between them, each under its (start,
/// destination) key.
pub struct MapStorage {
    position_storage: PositionStorage,
    routes_by_end_points: Vec<(RouteKey, Vec<Position>)>,
    table: Ghost<Map<(Seq<char>, Seq<char>), Seq<PoseView>>>,
}

impl MapStorage {
    /// The stored routes, by (start, destination) names.
    pub closed spec fn routes(&self) -> Map<(Seq<char>, Seq<char>), Seq<PoseView>> {
        self.table@
    }

    /// The known poses, oldest first.
    pub closed spec fn known_positions(&self) -> Seq<PoseView> {
        self.position_storage@
    }

    /// Each key is stored once, and the route table describes the stored entries.
    pub closed spec fn wf(&self) -> bool {
        let es = self.routes_by_end_points@;
        &&& forall|i: int, j: int|
            0 <= i < j < es.len() ==> (#[trigger] es[i].0)@ != (#[trigger] es[j].0)@
        &&& forall|k: (Seq<char>, Seq<char>)|
            #[trigger] self.table@.contains_key(k) <==> exists|i: int|
                0 <= i < es.len() && (#[trigger] es[i].0)@ == k
        &&& forall|i: int|
            0 <= i < es.len() ==> self.table@[(#[trigger] es[i].0)@] == poses(es[i].1@)
    }

    pub fn new() -> (r: MapStorage)
        ensures
            r.wf(),
            r.routes() == Map::<(Seq<char>, Seq<char>), Seq<PoseView>>::empty(),
            r.known_positions() == Seq::<PoseView>::empty(),
    {
        MapStorage {
            position_storage: PositionStorage::new(),
            routes_by_end_points: Vec::new(),
            table: Ghost(Map::empty()),
        }
    }

    /// Records a known pose; an older pose with the same name keeps precedence.
    pub fn store_position(&mut self, position: Position)
        requires
            old(self).wf(),
        ensures
            final(self).wf(),
            final(self).routes() == old(self).routes(),
            final(self).known_positions() == old(self).known_positions().push(position@),
    {
        self.position_storage.store_position(&position);
        assert(self.routes_by_end_points@ == old(self).routes_by_end_points@);
        assert forall|k: (Seq<char>, Seq<char>)| #[trigger] self.table@.contains_key(k) implies exists|i: int|
            0 <= i < self.routes_by_end_points@.len() && (#[trigger] self.routes_by_end_points@[i].0)@ == k by {
            assert(old(self).table@.contains_key(k));
        }
    }

    /// Resolves the moves forward from `start_position`; the last pose takes the
    /// destination's name and becomes a known pose.
    pub fn compute_route_from_start(&mut self, start_position: Position, route_request: StoreRouteRequest) -> (r: Result<Vec<Position>, RobotError>)
        requires
            old(self).wf(),
        ensures
            final(self).wf(),
            final(self).routes() == old(self).routes(),
            r is Ok <==> later_in_range(walk_forward(start_position@, route_request.route@)),
            r is Ok ==> poses(r->Ok_0@) == route_from_start(
                start_position@,
                route_request.route@,
                route_request.destination_position_name@,
            ),
            r is Ok ==> final(self).known_positions() == (if route_request.route@.len() == 0 {
                old(self).known_positions()
            } else {
                old(self).known_positions().push(poses(r->Ok_0@).last())
            }),
            r is Err ==> r->Err_0 == resolution_error(start_position@),
            r is Err ==> final(self).known_positions() == old(self).known_positions(),
    {
        let ghost s = start_position@;
        let mut out = match walk_from(start_position, &route_request.route) {
            Ok(out) => out,
            Err(e) => {
                return Err(e);
            },
        };
        let ms = &route_request.route;
        let n = ms.len();
        proof {
            lemma_walk_forward_steps(s, ms@);
        }
        if n > 0 {
            let last = out.pop();
            match last {
                Some(mut last) => {
                    last.set_position_name(route_request.destination_position_name.clone());
                    self.position_storage.store_position(&last);
                    out.push(last);
                },
                None => {},
            }
        }
        assert(poses(out@) =~= route_from_start(s, ms@, route_request.destination_position_name@));
        Ok(out)
    }

    /// Resolves the moves backward from `end_position`, last move first; the first
    /// pose takes the start's name and becomes a known pose.
    pub fn compute_route_from_end_request(&mut self, end_position: Position, route_request: StoreRouteRequest) -> (r: Result<Vec<Position>, RobotError>)
        requires
            old(self).wf(),
        ensures
            final(self).wf(),
            final(self).routes() == old(self).routes(),
            r is Ok <==> earlier_in_range(walk_backward(end_position@, route_request.route@)),
            r is Ok ==> poses(r->Ok_0@) == route_from_end(
                end_position@,
                route_request.route@,
                route_request.start_position_name@,
            ),
            r is Ok ==> final(self).known_positions() == (if route_request.route@.len() == 0 {
                old(self).known_positions()
            } else {
                old(self).known_positions().push(poses(r->Ok_0@)[0])
            }),
            r is Err ==> r->Err_0 == resolution_error(end_position@),
            r is Err ==> final(self).known_positions() == old(self).known_positions(),
    {
        let ghost e = end_position@;
        let mut out = match walk_to(end_position, &route_request.route) {
            Ok(out) => out,
            Err(err) => {
                return Err(err);
            },
        };
        let ms = &route_request.route;
        let n = ms.len();
        proof {
            lemma_walk_backward_steps(e, ms@);
        }
        if n > 0 {
            let mut first = out.remove(0);
            first.set_position_name(route_request.start_position_name.clone());
            self.position_storage.store_position(&first);
            out.insert(0, first);
        }
        assert(poses(out@) =~= route_from_end(e, ms@, route_request.start_position_name@));
        Ok(out)
    }

    /// Records `route` under `key`, replacing a route stored under the same key.
    fn insert_route(&mut self, key: RouteKey, route: Vec<Position>)
        requires
            old(self).wf(),
        ensures
            final(self).wf(),
            final(self).routes() == old(self).routes().insert(key@, poses(route@)),
            final(self).known_positions() == old(self).known_positions(),
    {
        let ghost k = key@;
        let ghost rv = poses(route@);
        let ghost es = self.routes_by_end_points@;
        let mut i: usize = 0;
        while i < self.routes_by_end_points.len()
            invariant
                0 <= i <= es.len(),
                *self == *old(self),
                es == old(self).routes_by_end_points@,
                old(self).wf(),
                k == key@,
                rv == poses(route@),
                forall|j: int| 0 <= j < i ==> (#[trigger] es[j].0)@ != k,
            decreases es.len() - i,
        {
            let same = {
                let entry_key = &self.routes_by_end_points[i].0;
                entry_key.start_name == key.start_name && entry_key.destination_name == key.destination_name
            };
            if same {
                let entry = (key, route);
                let ghost ne = entry;
                self.routes_by_end_points[i] = entry;
                self.table = Ghost(self.table@.insert(k, rv));
                proof {
                    let es2 = self.routes_by_end_points@;
                    assert(es2 == es.update(i as int, ne));
                    self.lemma_replaced_entry(old(self), i as int, k, rv);
                }
                return;
            }
            i += 1;
        }
        let entry = (key, route);
        let ghost ne = entry;
        self.routes_by_end_points.push(entry);
        self.table = Ghost(self.table@.insert(k, rv));
        proof {
            assert(self.routes_by_end_points@ == es.push(ne));
            self.lemma_added_entry(old(self), k, rv);
        }
    }

    /// Replacing the entry at `i`, whose key is `k`, keeps the table in step.
    proof fn lemma_replaced_entry(&self, before: &MapStorage, i: int, k: (Seq<char>, Seq<char>), rv: Seq<PoseView>)
        requires
            before.wf(),
            0 <= i < before.routes_by_end_points@.len(),
            before.routes_by_end_points@[i].0@ == k,
            self.routes_by_end_points@.len() == before.routes_by_end_points@.len(),
            self.routes_by_end_points@[i].0@ == k,
            poses(self.routes_by_end_points@[i].1@) == rv,
            forall|j: int|
                0 <= j < before.routes_by_end_points@.len() && j != i
                    ==> self.routes_by_end_points@[j] == before.routes_by_end_points@[j],
            self.table@ == before.table@.insert(k, rv),
        ensures
            self.wf(),
    {
        let es = before.routes_by_end_points@;
        let es2 = self.routes_by_end_points@;
        assert forall|a: int, b: int| 0 <= a < b < es2.len() implies (#[trigger] es2[a].0)@
            != (#[trigger] es2[b].0)@ by {
            assert(es[a].0@ != es[b].0@);
        }
        assert forall|kk: (Seq<char>, Seq<char>)| #[trigger] self.table@.contains_key(kk) == exists|a: int|
            0 <= a < es2.len() && (#[trigger] es2[a].0)@ == kk by {
            if kk == k {
                assert(es2[i].0@ == kk);
            } else if before.table@.contains_key(kk) {
                let a = choose|a: int| 0 <= a < es.len() && (#[trigger] es[a].0)@ == kk;
                assert(es2[a].0@ == kk);
            } else {
                assert forall|a: int| 0 <= a < es2.len() implies (#[trigger] es2[a].0)@ != kk by {
                    if a != i {
                        assert(es[a].0@ != kk);
                    }
                }
            }
        }
        assert forall|a: int| 0 <= a < es2.len() implies self.table@[(#[trigger] es2[a].0)@]
            == poses(es2[a].1@) by {
            if a != i {
                assert(es[a].0@ != es[i].0@);
            }
        }
    }

    /// Appending an entry under a new key `k` keeps the table in step.
    proof fn lemma_added_entry(&self, before: &MapStorage, k: (Seq<char>, Seq<char>), rv: Seq<PoseView>)
        requires
            before.wf(),
            forall|j: int| 0 <= j < before.routes_by_end_points@.len() ==> (#[trigger] before.routes_by_end_points@[j].0)@ != k,
            self.routes_by_end_points@.len() == before.routes_by_end_points@.len() + 1,
            self.routes_by_end_points@.last().0@ == k,
            poses(self.routes_by_end_points@.last().1@) == rv,
            forall|j: int|
                0 <= j < before.routes_by_end_points@.len()
                    ==> self.routes_by_end_points@[j] == before.routes_by_end_points@[j],
            self.table@ == before.table@.insert(k, rv),
        ensures
            self.wf(),
    {
        let es = before.routes_by_end_points@;
        let es2 = self.routes_by_end_points@;
        let n = es.len() as int;
        assert forall|a: int, b: int| 0 <= a < b < es2.len() implies (#[trigger] es2[a].0)@
            != (#[trigger] es2[b].0)@ by {
            if b < n {
                assert(es[a].0@ != es[b].0@);
            } else {
                assert(es[a].0@ != k);
            }
        }
        assert forall|kk: (Seq<char>, Seq<char>)| #[trigger] self.table@.contains_key(kk) == exists|a: int|
            0 <= a < es2.len() && (#[trigger] es2[a].0)@ == kk by {
            if kk == k {
                assert(es2[n].0@ == kk);
            } else if before.table@.contains_key(kk) {
                let a = choose|a: int| 0 <= a < es.len() && (#[trigger] es[a].0)@ == kk;
                assert(es2[a].0@ == kk);
            } else {
                assert forall|a: int| 0 <= a < es2.len() implies (#[trigger] es2[a].0)@ != kk by {
                    if a < n {
                        assert(es[a].0@ != kk);
                    }
                }
            }
        }
        assert forall|a: int| 0 <= a < es2.len() implies self.table@[(#[trigger] es2[a].0)@]
            == poses(es2[a].1@) by {
            if a < n {
                assert(es[a].0@ != k);
            }
        }
    }

    /// Resolves and records a route. The start is looked up first (oldest pose with
    /// its name) and the moves are applied forward from it; otherwise the destination
    /// is looked up and the moves are undone backward from it, last move first. The
    /// end that was not known becomes a known pose. A route with no moves, or between
    /// two unknown places, is refused. Nothing changes on failure.
    pub fn store_route(&mut self, route_request: &StoreRouteRequest) -> (r: Result<(), RobotError>)
        requires
            old(self).wf(),
        ensures
            final(self).wf(),
            ({
                let ms = route_request.route@;
                let s = route_request.start_position_name@;
                let d = route_request.destination_position_name@;
                match resolve_route(old(self).known_positions(), ms, s, d) {
                    Ok(route) => {
                        &&& r is Ok
                        &&& final(self).routes() == old(self).routes().insert((s, d), route)
                        &&& final(self).known_positions() == old(self).known_positions().push(
                            new_endpoint(old(self).known_positions(), route, s),
                        )
                    },
                    Err(e) => {
                        &&& r == Err::<(), RobotError>(e)
                        &&& final(self).routes() == old(self).routes()
                        &&& final(self).known_positions() == old(self).known_positions()
                    },
                }
            }),
    {
        if route_request.route.len() == 0 {
            return Err(RobotError::InvalidRoute);
        }
        let ghost ps = self.known_positions();
        let ghost ms = route_request.route@;
        let key = RouteKey::new(
            route_request.start_position_name.clone(),
            route_request.destination_position_name.clone(),
        );
        let route;
        if self.position_storage.is_in_storage_by_name(key.start_name.clone()) {
            let start = match self.position_storage.search_by_name(key.start_name.clone()) {
                Ok(p) => p,
                Err(e) => {
                    return Err(e);
                },
            };
            proof {
                let i = choose|i: int| is_first_named(ps, key.start_name@, i) && start@ == ps[i];
                lemma_first_named_unique(ps, key.start_name@, i);
            }
            route = match self.compute_route_from_start(start, route_request.duplicate()) {
                Ok(v) => v,
                Err(e) => {
                    return Err(e);
                },
            };
        } else if self.position_storage.is_in_storage_by_name(key.destination_name.clone()) {
            let end = match self.position_storage.search_by_name(key.destination_name.clone()) {
                Ok(p) => p,
                Err(e) => {
                    return Err(e);
                },
            };
            proof {
                let i = choose|i: int| is_first_named(ps, key.destination_name@, i) && end@ == ps[i];
                lemma_first_named_unique(ps, key.destination_name@, i);
            }
            route = match self.compute_route_from_end_request(end, route_request.duplicate()) {
                Ok(v) => v,
                Err(e) => {
                    return Err(e);
                },
            };
        } else {
            return Err(RobotError::UnknownEndpoints);
        }
        self.insert_route(key, route);
        Ok(())
    }

    /// The route stored under exactly this key; the reversed key is not consulted.
    pub fn get_route(&self, route_key: &RouteKey) -> (r: Result<Vec<Position>, RobotError>)
        requires
            self.wf(),
        ensures
            r is Ok <==> self.routes().contains_key(route_key@),
            r is Ok ==> poses(r->Ok_0@) == self.routes()[route_key@],
            r is Err ==> r->Err_0 == RobotError::RouteNotFound,
    {
        let mut i: usize = 0;
        while i < self.routes_by_end_points.len()
            invariant
                self.wf(),
                0 <= i <= self.routes_by_end_points@.len(),
                forall|j: int| 0 <= j < i ==> (#[trigger] self.routes_by_end_points@[j].0)@ != route_key@,
            decreases self.routes_by_end_points@.len() - i,
        {
            let entry = &self.routes_by_end_points[i];
            if entry.0.start_name == route_key.start_name && entry.0.destination_name == route_key.destination_name {
                assert(self.table@[entry.0@] == poses(entry.1@));
                return Ok(copy_positions(&entry.1));
            }
            i += 1;
        }
        Err(RobotError::RouteNotFound)
    }
}

/// Round trip of route storage: storing moves between a known start and a new
/// destination, then storing the same moves where only the destination is known,
/// as the pose that the first resolution reached, gives the identical route.
pub proof fn lemma_store_route_round_trip(
    known_start: Seq<PoseView>,
    known_destination: Seq<PoseView>,
    ms: Seq<DirectionMove>,
    start: Seq<char>,
    destination: Seq<char>,
)
    requires
        has_named(known_start, start),
        pose_in_range(first_named(known_start, start)),
        is_cardinal(first_named(known_start, start).theta) ==> quarter_turns_only(ms),
        resolve_route(known_start, ms, start, destination) is Ok,
        !has_named(known_destination, start),
        has_named(known_destination, destination),
        first_named(known_destination, destination) == resolve_route(
            known_start,
            ms,
            start,
            destination,
        )->Ok_0.last(),
    ensures
        resolve_route(known_destination, ms, start, destination) == resolve_route(
            known_start,
            ms,
            start,
            destination,
        ),
{
    lemma_first_named_exists(known_start, start);
    let i = choose|i: int| is_first_named(known_start, start, i);
    lemma_first_named_unique(known_start, start, i);
    let s = first_named(known_start, start);
    let f = route_from_start(s, ms, destination);
    let e = first_named(known_destination, destination);
    assert(e == f.last());
    lemma_route_round_trip(s, ms, start, destination);
    assert(route_from_end(e, ms, start) == f);
    let w = walk_forward(s, ms);
    let b = walk_backward(e, ms);
    lemma_walk_forward_steps(s, ms);
    lemma_walk_backward_steps(e, ms);
    assert forall|k: int| 0 <= k < b.len() - 1 implies #[trigger] pose_in_range(b[k]) by {
        if k == 0 {
            assert(route_from_end(e, ms, start)[0] == f[0]);
            assert(f[0] == s);
        } else {
            assert(route_from_end(e, ms, start)[k] == b[k]);
            assert(f[k] == w[k]);
            assert(pose_in_range(w[k]));
        }
    }
    assert(earlier_in_range(b));
}

impl Default for PositionStorage {
    fn default() -> (r: Self)
        ensures
            r@ == Seq::<PoseView>::empty(),
    {
        Self::new()
    }
}

impl Default for MapStorage {
    fn default() -> (r: Self)
        ensures
            r.wf(),
            r.routes() == Map::<(Seq<char>, Seq<char>), Seq<PoseView>>::empty(),
            r.known_positions() == Seq::<PoseView>::empty(),
    {
        Self::new()
    }
}

} // verus!
