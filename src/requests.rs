use vstd::prelude::*;
use std::collections::VecDeque;
use crate::missions::ActionType;
use crate::moves::DirectionMove;
use crate::route_storage::RouteKey;

verus! {

/// Asks for a photograph.
#[derive(Debug, Clone, Copy, PartialEq, Eq, Structural)]
pub struct PhotoRequest;

/// Asks whether the robot is busy.
#[derive(Debug, Clone, Copy, PartialEq, Eq, Structural)]
pub struct StateReqest;

/// Asks to record a route: the moves that lead from the start to the destination.
#[derive(Debug, Clone, PartialEq)]
pub struct StoreRouteRequest {
    pub start_position_name: String,
    pub route: VecDeque<DirectionMove>,
    pub destination_position_name: String,
}

/// Asks to run a mission along a route.
#[derive(Debug, PartialEq)]
pub struct MissionRequest {
    pub action: ActionType,
    pub route: RouteType,
}

/// Asks to record the robot's home pose.
#[derive(Debug, Clone, Copy, PartialEq, Eq, Structural)]
pub struct DefineHomeRequest {
    pub home_x: i32,
    pub home_y: i32,
    pub home_theta: u16,
}

/// How a mission names its route.
#[derive(Debug, PartialEq)]
pub enum RouteType {
    RouteKey(RouteKey),
    AbsolutePosition { x_coordinate: i32, y_coordinate: i32, theta: u16 },
    RelativeMovement(VecDeque<DirectionMove>),
}

/// Every request the robot answers.
#[derive(Debug, PartialEq)]
pub enum Requests {
    Photo(PhotoRequest),
    State(StateReqest),
    StoreRoute(StoreRouteRequest),
    MissionRequest(MissionRequest),
    DefineHome(DefineHomeRequest),
}

impl PhotoRequest {
    pub fn new() -> (r: PhotoRequest)
        ensures
            r == PhotoRequest,
    {
        PhotoRequest
    }
}

impl StateReqest {
    pub fn new() -> (r: StateReqest)
        ensures
            r == StateReqest,
    {
        StateReqest
    }
}

impl StoreRouteRequest {
    pub fn new(start_position_name: String, route: VecDeque<DirectionMove>, destination_position_name: String) -> (r: StoreRouteRequest)
        ensures
            r == (StoreRouteRequest { start_position_name, route, destination_position_name }),
    {
        StoreRouteRequest { start_position_name, route, destination_position_name }
    }

    pub fn get_start_position_name(&self) -> (r: String)
        ensures
            r == self.start_position_name,
    {
        self.start_position_name.clone()
    }

    /// A copy of the moves, in order.
    pub fn get_route(&self) -> (r: VecDeque<DirectionMove>)
        ensures
            r@ == self.route@,
    {
        let mut out: VecDeque<DirectionMove> = VecDeque::new();
        let n = self.route.len();
        let mut i: usize = 0;
        while i < n
            invariant
                n == self.route@.len(),
                0 <= i <= n,
                out@ == self.route@.subrange(0, i as int),
            decreases n - i,
        {
            out.push_back(self.route[i]);
            i += 1;
            assert(out@ =~= self.route@.subrange(0, i as int));
        }
        assert(self.route@.subrange(0, n as int) =~= self.route@);
        out
    }

    pub fn get_destination_position_name(&self) -> (r: String)
        ensures
            r == self.destination_position_name,
    {
        self.destination_position_name.clone()
    }
}

impl DefineHomeRequest {
    pub fn new(home_x: i32, home_y: i32, home_theta: u16) -> (r: DefineHomeRequest)
        ensures
            r == (DefineHomeRequest { home_x, home_y, home_theta }),
    {
        DefineHomeRequest { home_x, home_y, home_theta }
    }

    pub fn get_x(&self) -> (r: i32)
        ensures
            r == self.home_x,
    {
        self.home_x
    }

    pub fn get_y(&self) -> (r: i32)
        ensures
            r == self.home_y,
    {
        self.home_y
    }

    pub fn get_theta(&self) -> (r: u16)
        ensures
            r == self.home_theta,
    {
        self.home_theta
    }
}

impl MissionRequest {
    /// A mission along the route stored under (start, destination).
    pub fn new(action: ActionType, start_name: String, destination_name: String) -> (r: MissionRequest)
        ensures
            r == (MissionRequest {
                action,
                route: RouteType::RouteKey(RouteKey { start_name, destination_name }),
            }),
    {
        MissionRequest { action, route: RouteType::RouteKey(RouteKey::new(start_name, destination_name)) }
    }
}

impl Default for PhotoRequest {
    fn default() -> (r: Self)
        ensures
            r == PhotoRequest,
    {
        Self::new()
    }
}

impl Default for StateReqest {
    fn default() -> (r: Self)
        ensures
            r == StateReqest,
    {
        Self::new()
    }
}

} // verus!
