use vstd::prelude::*;
use std::collections::VecDeque;
use crate::moves::{Direction, DirectionMove};
use crate::pose::{PoseView, Position, RobotError};
use crate::requests::StoreRouteRequest;
use crate::route_storage::{new_endpoint, poses, resolve_route, MapStorage, RouteKey};

verus! {

/// The name under which the home pose is recorded.
pub const HOME: &'static str = "Home";

/// The pose built from a name and three numbers; the heading is not checked.
pub open spec fn pose_of(item: (Option<&str>, i32, i32, u16)) -> PoseView {
    PoseView {
        name: match item.0 {
            Some(s) => Some(s@),
            None => None,
        },
        x: item.1 as int,
        y: item.2 as int,
        theta: item.3 as int,
    }
}

/// The moves built from (direction, magnitude) pairs.
pub open spec fn moves_of(items: Seq<(Direction, i32)>) -> Seq<DirectionMove> {
    items.map_values(|d: (Direction, i32)| DirectionMove { direction_type: d.0, value: d.1 })
}

/// A pose from a name and three numbers, as written in route fixtures.
pub fn position_from(item: (Option<&str>, i32, i32, u16)) -> (r: Position)
    ensures
        r@ == pose_of(item),
{
    let position_name = match item.0 {
        Some(s) => Some(s.to_owned()),
        None => None,
    };
    Position { position_name, x_coordinate: item.1, y_coordinate: item.2, theta: item.3 }
}

/// A small front end over the map store that takes routes and poses as plain arrays
/// and string slices.
pub struct StoreRouteHelper {
    pub map_storage: MapStorage,
}

impl StoreRouteHelper {
    pub fn new() -> (r: Self)
        ensures
            r.map_storage.wf(),
            r.map_storage.routes() == Map::<(Seq<char>, Seq<char>), Seq<PoseView>>::empty(),
            r.map_storage.known_positions() == Seq::<PoseView>::empty(),
    {
        Self { map_storage: MapStorage::new() }
    }

    /// Stores the route given by its moves, start name and destination name, as the
    /// map store does.
    pub fn store_route<const N: usize>(&mut self, route: ([(Direction, i32); N], &str, &str)) -> (r: Result<(), RobotError>)
        requires
            old(self).map_storage.wf(),
        ensures
            final(self).map_storage.wf(),
            ({
                let ms = moves_of(route.0@);
                let s = route.1@;
                let d = route.2@;
                let before = old(self).map_storage;
                match resolve_route(before.known_positions(), ms, s, d) {
                    Ok(resolved) => {
                        &&& r is Ok
                        &&& final(self).map_storage.routes() == before.routes().insert((s, d), resolved)
                        &&& final(self).map_storage.known_positions() == before.known_positions().push(
                            new_endpoint(before.known_positions(), resolved, s),
                        )
                    },
                    Err(e) => {
                        &&& r == Err::<(), RobotError>(e)
                        &&& final(self).map_storage.routes() == before.routes()
                        &&& final(self).map_storage.known_positions() == before.known_positions()
                    },
                }
            }),
    {
        let (directions_arr, start, destination) = route;
        let moves = Self::route_arr_to_vecdeque(directions_arr);
        let request = StoreRouteRequest::new(start.to_owned(), moves, destination.to_owned());
        self.map_storage.store_route(&request)
    }

    /// The route stored under (start, destination).
    pub fn get_route(&mut self, route_key: (&str, &str)) -> (r: Result<Vec<Position>, RobotError>)
        requires
            old(self).map_storage.wf(),
        ensures
            final(self).map_storage == old(self).map_storage,
            r is Ok <==> old(self).map_storage.routes().contains_key((route_key.0@, route_key.1@)),
            r is Ok ==> poses(r->Ok_0@) == old(self).map_storage.routes()[(route_key.0@, route_key.1@)],
            r is Err ==> r->Err_0 == RobotError::RouteNotFound,
    {
        let key = RouteKey::new(route_key.0.to_owned(), route_key.1.to_owned());
        self.map_storage.get_route(&key)
    }

    /// Records a pose given by its name and three numbers.
    pub fn store_position(&mut self, position: (Option<&str>, i32, i32, u16))
        requires
            old(self).map_storage.wf(),
        ensures
            final(self).map_storage.wf(),
            final(self).map_storage.routes() == old(self).map_storage.routes(),
            final(self).map_storage.known_positions() == old(self).map_storage.known_positions().push(
                pose_of(position),
            ),
    {
        self.map_storage.store_position(position_from(position));
    }

    /// Records the home pose.
    pub fn define_home(&mut self, position: (i32, i32, u16))
        requires
            old(self).map_storage.wf(),
        ensures
            final(self).map_storage.wf(),
            final(self).map_storage.routes() == old(self).map_storage.routes(),
            final(self).map_storage.known_positions() == old(self).map_storage.known_positions().push(
                PoseView { name: Some(HOME@), x: position.0 as int, y: position.1 as int, theta: position.2 as int },
            ),
    {
        self.store_position((Some(HOME), position.0, position.1, position.2));
    }

    /// The moves of (direction, magnitude) pairs, in order.
    pub fn route_arr_to_vecdeque<const N: usize>(directions_arr: [(Direction, i32); N]) -> (r: VecDeque<DirectionMove>)
        ensures
            r@ == moves_of(directions_arr@),
    {
        let mut out: VecDeque<DirectionMove> = VecDeque::new();
        let mut i: usize = 0;
        while i < N
            invariant
                0 <= i <= N,
                directions_arr@.len() == N,
                out@ == moves_of(directions_arr@.subrange(0, i as int)),
            decreases N - i,
        {
            let (d, v) = directions_arr[i];
            out.push_back(DirectionMove::new(d, v));
            i += 1;
            assert(out@ =~= moves_of(directions_arr@.subrange(0, i as int)));
        }
        assert(directions_arr@.subrange(0, N as int) =~= directions_arr@);
        out
    }

    /// The poses of (name, x, y, heading) tuples, in order.
    pub fn arr_to_position_vector<const N: usize>(dir_arr: [(Option<&str>, i32, i32, u16); N]) -> (r: Vec<Position>)
        ensures
            r@.len() == N,
            forall|i: int| 0 <= i < N ==> (#[trigger] r@[i])@ == pose_of(dir_arr@[i]),
    {
        let mut out: Vec<Position> = Vec::new();
        let mut i: usize = 0;
        while i < N
            invariant
                0 <= i <= N,
                dir_arr@.len() == N,
                out@.len() == i,
                forall|j: int| 0 <= j < i ==> (#[trigger] out@[j])@ == pose_of(dir_arr@[j]),
            decreases N - i,
        {
            out.push(position_from(dir_arr[i]));
            i += 1;
        }
        out
    }
}

impl Default for StoreRouteHelper {
    fn default() -> (r: Self)
        ensures
            r.map_storage.wf(),
            r.map_storage.routes() == Map::<(Seq<char>, Seq<char>), Seq<PoseView>>::empty(),
            r.map_storage.known_positions() == Seq::<PoseView>::empty(),
    {
        Self::new()
    }
}

} // verus!
