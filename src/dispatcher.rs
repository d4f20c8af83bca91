use vstd::prelude::*;
use crate::missions::{ExecutableMission, MissionStatus};
use crate::pose::{Position, PoseView, MAX_HEADING};
use crate::requests::{Requests, RouteType};
use crate::responses::{GeneralResponse, Responses, RobotStates, StateResponse};
use crate::route_storage::{new_endpoint, poses, resolve_route, MapStorage};

verus! {

/// The request was carried out.
pub const STATUS_OK: u16 = 200;

/// A mission was refused because the robot is busy.
pub const STATUS_BUSY: u16 = 400;

/// A mission named a route that is not stored.
pub const STATUS_ROUTE_NOT_FOUND: u16 = 404;

/// A route or home pose could not be recorded.
pub const STATUS_NOT_STORED: u16 = 69;

/// The name under which the home pose is recorded.
pub const HOME_NAME: &'static str = "Home";

/// What the dispatcher decided for one request.
pub enum Dispatch {
    /// Answer with this response.
    Reply(Responses),
    /// Take a photograph (indicator on, capture, indicator off) and answer with it.
    Photograph,
    /// Queue the mission for the mission controller, then answer with the response.
    Launch { mission: ExecutableMission, reply: Responses },
}

/// The response carries this status code.
pub open spec fn has_status(r: Responses, status: u16) -> bool {
    match r {
        Responses::GeneralResponse(g) => g.status == status,
        _ => false,
    }
}

/// The dispatch is a plain reply with this status code.
pub open spec fn replies_with(d: Dispatch, status: u16) -> bool {
    match d {
        Dispatch::Reply(r) => has_status(r, status),
        _ => false,
    }
}

/// The home pose recorded for a home request.
pub open spec fn home_pose(x: i32, y: i32, theta: u16) -> PoseView {
    PoseView { name: Some(HOME_NAME@), x: x as int, y: y as int, theta: theta as int }
}

/// The robot's availability after the mission controller reports a status.
pub open spec fn state_after(status: MissionStatus) -> RobotStates {
    match status {
        MissionStatus::Completed => RobotStates::Free,
        MissionStatus::NotCompleted => RobotStates::Busy,
    }
}

/// The availability that a status report from the mission controller sets.
pub fn robot_state_after(status: MissionStatus) -> (r: RobotStates)
    ensures
        r == state_after(status),
{
    match status {
        MissionStatus::Completed => RobotStates::Free,
        MissionStatus::NotCompleted => RobotStates::Busy,
    }
}

fn general(status: u16) -> (r: Responses)
    ensures
        has_status(r, status),
{
    let message = if status == STATUS_OK {
        "OK".to_owned()
    } else if status == STATUS_BUSY {
        "The robot is busy and cannot take a mission now".to_owned()
    } else if status == STATUS_ROUTE_NOT_FOUND {
        "No route is stored under that name".to_owned()
    } else {
        "The request could not be stored".to_owned()
    };
    Responses::GeneralResponse(GeneralResponse::new(status, message))
}

/// Decides one request. State and photo requests touch nothing. A home definition
/// records the home pose. A route is resolved and stored by the map. A mission is
/// refused while the robot is busy; otherwise its route must be stored under its key,
/// and the mission then goes to the mission controller with that route. The robot's
/// availability is not changed here: only a status report from the mission
/// controller changes it.
pub fn handle_request(request: Requests, map_storage: &mut MapStorage, robot_state: RobotStates) -> (r: Dispatch)
    requires
        old(map_storage).wf(),
    ensures
        final(map_storage).wf(),
        match request {
            Requests::State(_) => {
                &&& r == Dispatch::Reply(Responses::StateResponse(StateResponse { state: robot_state }))
                &&& final(map_storage).routes() == old(map_storage).routes()
                &&& final(map_storage).known_positions() == old(map_storage).known_positions()
            },
            Requests::Photo(_) => {
                &&& r == Dispatch::Photograph
                &&& final(map_storage).routes() == old(map_storage).routes()
                &&& final(map_storage).known_positions() == old(map_storage).known_positions()
            },
            Requests::DefineHome(h) => {
                &&& final(map_storage).routes() == old(map_storage).routes()
                &&& h.home_theta <= MAX_HEADING ==> replies_with(r, STATUS_OK)
                    && final(map_storage).known_positions() == old(map_storage).known_positions().push(
                    home_pose(h.home_x, h.home_y, h.home_theta),
                )
                &&& h.home_theta > MAX_HEADING ==> replies_with(r, STATUS_NOT_STORED)
                    && final(map_storage).known_positions() == old(map_storage).known_positions()
            },
            Requests::StoreRoute(req) => {
                let res = resolve_route(
                    old(map_storage).known_positions(),
                    req.route@,
                    req.start_position_name@,
                    req.destination_position_name@,
                );
                &&& res is Ok ==> replies_with(r, STATUS_OK) && final(map_storage).routes()
                    == old(map_storage).routes().insert(
                    (req.start_position_name@, req.destination_position_name@),
                    res->Ok_0,
                ) && final(map_storage).known_positions() == old(map_storage).known_positions().push(
                    new_endpoint(old(map_storage).known_positions(), res->Ok_0, req.start_position_name@),
                )
                &&& res is Err ==> replies_with(r, STATUS_NOT_STORED) && final(map_storage).routes()
                    == old(map_storage).routes() && final(map_storage).known_positions()
                    == old(map_storage).known_positions()
            },
            Requests::MissionRequest(m) => {
                &&& final(map_storage).routes() == old(map_storage).routes()
                &&& final(map_storage).known_positions() == old(map_storage).known_positions()
                &&& robot_state == RobotStates::Busy ==> replies_with(r, STATUS_BUSY)
                &&& robot_state == RobotStates::Free ==> match m.route {
                    RouteType::RouteKey(k) => if old(map_storage).routes().contains_key(k@) {
                        match r {
                            Dispatch::Launch { mission, reply } => {
                                &&& mission.action == m.action
                                &&& poses(mission.route@) == old(map_storage).routes()[k@]
                                &&& has_status(reply, STATUS_OK)
                            },
                            _ => false,
                        }
                    } else {
                        replies_with(r, STATUS_ROUTE_NOT_FOUND)
                    },
                    _ => replies_with(r, STATUS_ROUTE_NOT_FOUND),
                }
            },
        },
{
    match request {
        Requests::State(_) => Dispatch::Reply(Responses::StateResponse(StateResponse::new(robot_state))),
        Requests::Photo(_) => Dispatch::Photograph,
        Requests::DefineHome(h) => {
            match Position::new(Some(HOME_NAME.to_owned()), h.home_x, h.home_y, h.home_theta) {
                Ok(home) => {
                    map_storage.store_position(home);
                    Dispatch::Reply(general(STATUS_OK))
                },
                Err(_) => Dispatch::Reply(general(STATUS_NOT_STORED)),
            }
        },
        Requests::StoreRoute(req) => {
            match map_storage.store_route(&req) {
                Ok(()) => Dispatch::Reply(general(STATUS_OK)),
                Err(_) => Dispatch::Reply(general(STATUS_NOT_STORED)),
            }
        },
        Requests::MissionRequest(m) => {
            if robot_state == RobotStates::Busy {
                return Dispatch::Reply(general(STATUS_BUSY));
            }
            match &m.route {
                RouteType::RouteKey(k) => {
                    match map_storage.get_route(k) {
                        Ok(route) => Dispatch::Launch {
                            mission: ExecutableMission::new(m.action, route),
                            reply: general(STATUS_OK),
                        },
                        Err(_) => Dispatch::Reply(general(STATUS_ROUTE_NOT_FOUND)),
                    }
                },
                _ => Dispatch::Reply(general(STATUS_ROUTE_NOT_FOUND)),
            }
        },
    }
}

} // verus!
