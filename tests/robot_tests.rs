use std::collections::VecDeque;

use raspi::chassis::{EngineOrder, MotorIndex, MotorOrders};
use raspi::dispatcher::{
    handle_request, robot_state_after, Dispatch, STATUS_BUSY, STATUS_NOT_STORED, STATUS_OK,
    STATUS_ROUTE_NOT_FOUND,
};
use raspi::missions::{ActionType, ExecutableMission, MissionCommand, MissionEvent, MissionPhase, MissionStatus};
use raspi::moves::Direction::{Backward, Forward, Left, Right, RotateLeft, RotateRight};
use raspi::moves::{Direction, DirectionMove, Heading};
use raspi::nav_states::{Accelerating, NavComputerStates, Rotating, SlowRide, Stopped};
use raspi::navigation::{dock_target, go_forward_slowly_target, navigation_tick, undock_target};
use raspi::pose::{Position, RobotError};
use raspi::requests::{
    DefineHomeRequest, MissionRequest, PhotoRequest, Requests, RouteType, StateReqest, StoreRouteRequest,
};
use raspi::responses::{Responses, RobotStates};
use raspi::route_storage::{move_to_next_position, move_to_previous_position, MapStorage, PositionStorage, RouteKey};
use raspi::serial_commands::{SerialCommand, SetPosition, SetSpeeds};
use raspi::serial_responses::{HavePositionResponse, ResponseError, SerialResponse};
use raspi::stimulator_config::{is_valid_efficiency, Config, MotorEfficiencies, StartConfig, TargetConfig};
use raspi::store_route_helper::StoreRouteHelper;

fn pose(name: Option<&str>, x: i32, y: i32, theta: u16) -> Position {
    Position::new(name.map(|s| s.to_string()), x, y, theta).unwrap()
}

fn status_of(d: &Dispatch) -> Option<u16> {
    match d {
        Dispatch::Reply(Responses::GeneralResponse(g)) => Some(g.status),
        Dispatch::Launch { reply: Responses::GeneralResponse(g), .. } => Some(g.status),
        _ => None,
    }
}

#[test]
fn pose_rejects_heading_above_360() {
    assert_eq!(Position::new(None, 0, 0, 361), Err(RobotError::InvalidPose));
    assert!(Position::new(None, 0, 0, 360).is_ok());
}

#[test]
fn fuzzy_equality_boundary() {
    let a = pose(None, 100, 100, 20);
    let b = pose(None, 125, 75, 30);
    let c = pose(None, 126, 74, 31);
    assert!(a.equals(&b));
    assert!(!a.equals(&c));
    assert!(a.equals_coordinates(&b));
    assert!(!a.equals_coordinates(&c));
    assert!(a.equals_theta(&b));
    assert!(!a.equals_theta(&c));
}

#[test]
fn heading_wraparound() {
    let home = pose(None, 100, 100, 0);
    let left = move_to_next_position(home.clone(), DirectionMove::new(RotateLeft, 90)).unwrap();
    assert_eq!(left.theta, 270);
    let right = move_to_next_position(home.clone(), DirectionMove::new(RotateRight, 90)).unwrap();
    assert_eq!(right.theta, 90);
    let mut p = home.clone();
    for _ in 0..4 {
        p = move_to_next_position(p, DirectionMove::new(RotateRight, 90)).unwrap();
    }
    assert_eq!((p.x_coordinate, p.y_coordinate, p.theta), (100, 100, 0));
}

#[test]
fn rotation_wraps_for_large_and_negative_turns() {
    let p = pose(None, 0, 0, 90);
    let r = move_to_next_position(p.clone(), DirectionMove::new(RotateRight, 450)).unwrap();
    assert_eq!(r.theta, 180);
    let l = move_to_next_position(p.clone(), DirectionMove::new(RotateLeft, -90)).unwrap();
    assert_eq!(l.theta, 180);
    let back = move_to_previous_position(r, DirectionMove::new(RotateRight, 450)).unwrap();
    assert_eq!(back.theta, 90);
}

#[test]
fn moves_at_unclear_heading_do_nothing() {
    let p = pose(Some("odd"), 10, 20, 45);
    let q = move_to_next_position(p, DirectionMove::new(Forward, 100)).unwrap();
    assert_eq!(q, pose(None, 10, 20, 45));
}

#[test]
fn move_out_of_range_is_refused() {
    let p = pose(None, i32::MAX - 10, 0, 0);
    assert_eq!(
        move_to_next_position(p, DirectionMove::new(Forward, 11)),
        Err(RobotError::CoordinateOutOfRange)
    );
    let q = Position { position_name: None, x_coordinate: 0, y_coordinate: 0, theta: 400 };
    assert_eq!(move_to_next_position(q, DirectionMove::new(Forward, 1)), Err(RobotError::InvalidPose));
}

#[test]
fn previous_position_undoes_each_move() {
    let start = pose(None, 5, -7, 180);
    for d in [Forward, Backward, Left, Right, RotateLeft, RotateRight] {
        let m = DirectionMove::new(d, 90);
        let next = move_to_next_position(start.clone(), m).unwrap();
        assert_ne!(next, start);
        let back = move_to_previous_position(next, m).unwrap();
        assert_eq!(back, start);
    }
}

#[test]
fn forward_scenario_reaches_150() {
    let mut helper = StoreRouteHelper::new();
    helper.define_home((100, 100, 0));
    assert!(helper.store_route(([(Forward, 50)], "Home", "D")).is_ok());
    let route = helper.get_route(("Home", "D")).unwrap();
    assert_eq!(route.last().unwrap(), &pose(Some("D"), 150, 100, 0));
}

#[test]
fn empty_route_is_invalid() {
    let mut helper = StoreRouteHelper::new();
    helper.define_home((100, 100, 0));
    let empty: [(Direction, i32); 0] = [];
    assert_eq!(helper.store_route((empty, "Home", "D")), Err(RobotError::InvalidRoute));
    assert_eq!(helper.get_route(("Home", "D")), Err(RobotError::RouteNotFound));
}

#[test]
fn unknown_endpoints_are_refused() {
    let mut helper = StoreRouteHelper::new();
    helper.define_home((100, 100, 0));
    assert_eq!(
        helper.store_route(([(Forward, 50)], "Nowhere", "Elsewhere")),
        Err(RobotError::UnknownEndpoints)
    );
}

#[test]
fn route_lookup_is_order_sensitive() {
    let mut helper = StoreRouteHelper::new();
    helper.define_home((0, 0, 0));
    assert!(helper.store_route(([(Forward, 10)], "Home", "A")).is_ok());
    assert!(helper.get_route(("Home", "A")).is_ok());
    assert_eq!(helper.get_route(("A", "Home")), Err(RobotError::RouteNotFound));
}

#[test]
fn restoring_a_route_replaces_it() {
    let mut helper = StoreRouteHelper::new();
    helper.define_home((0, 0, 0));
    assert!(helper.store_route(([(Forward, 10)], "Home", "A")).is_ok());
    assert!(helper.store_route(([(Left, 20)], "Home", "A")).is_ok());
    let route = helper.get_route(("Home", "A")).unwrap();
    assert_eq!(route, vec![pose(Some("Home"), 0, 0, 0), pose(Some("A"), 0, 20, 0)]);
}

#[test]
fn forward_then_backward_round_trip() {
    let moves = [(Forward, 300), (RotateRight, 90), (Left, 40), (RotateLeft, 180), (Backward, 25), (Right, 5)];
    let mut forward = StoreRouteHelper::new();
    forward.define_home((10, 20, 90));
    assert!(forward.store_route((moves, "Home", "Dest")).is_ok());
    let there = forward.get_route(("Home", "Dest")).unwrap();
    let dest = there.last().unwrap().clone();

    let mut backward = StoreRouteHelper::new();
    backward.store_position((Some("Dest"), dest.x_coordinate, dest.y_coordinate, dest.theta));
    assert!(backward.store_route((moves, "Home", "Dest")).is_ok());
    let back = backward.get_route(("Home", "Dest")).unwrap();
    assert_eq!(there, back);
}

#[test]
fn oldest_position_wins_on_name_lookup() {
    let mut storage = PositionStorage::new();
    storage.store_position(&pose(Some("A"), 1, 1, 0));
    storage.store_position(&pose(Some("A"), 2, 2, 0));
    assert_eq!(storage.search_by_name("A".to_string()).unwrap(), pose(Some("A"), 1, 1, 0));
    assert!(storage.is_in_storage_by_name("A".to_string()));
    assert!(!storage.is_in_storage_by_name("B".to_string()));
    assert_eq!(storage.search_by_name("B".to_string()), Err(RobotError::PositionNotFound));
    assert_eq!(storage.search_by_coordinates(2, 2, 0).unwrap(), pose(Some("A"), 2, 2, 0));
    assert_eq!(storage.get_positions().len(), 2);
}

#[test]
fn route_key_comparisons() {
    let k = RouteKey::new("A".to_string(), "B".to_string());
    assert!(k.equals(RouteKey::new("A".to_string(), "B".to_string())));
    assert!(!k.equals(RouteKey::new("B".to_string(), "A".to_string())));
    assert!(k.equals_reversed(RouteKey::new("B".to_string(), "A".to_string())));
}

#[test]
fn stopped_plans_acceleration_for_long_move() {
    let target = pose(None, 1000, 0, 0);
    let current = pose(None, 0, 0, 0);
    let (next, orders) = NavComputerStates::Stopped(Stopped::new()).run(target, current.clone());
    assert_eq!(orders, vec![MotorOrders::stop()]);
    let expected = NavComputerStates::Accelerating(Accelerating::new(
        Forward,
        Left,
        RotateRight,
        false,
        pose(None, 800, 0, 0),
        current,
    ));
    assert_eq!(next, expected);
}

#[test]
fn stopped_plans_slow_ride_for_short_move_facing_east() {
    let target = pose(None, 0, 50, 90);
    let current = pose(None, 0, 0, 90);
    let (next, _) = NavComputerStates::Stopped(Stopped).run(target, current.clone());
    // facing east, an increase in y lies behind the robot
    let expected = NavComputerStates::SlowRide(SlowRide::new(Backward, Left, RotateRight, true, current));
    assert_eq!(next, expected);
}

#[test]
fn deceleration_point_rounds_toward_start() {
    let target = pose(None, -1005, 0, 0);
    let current = pose(None, 0, 0, 0);
    let (next, _) = NavComputerStates::Stopped(Stopped).run(target, current);
    match next {
        NavComputerStates::Accelerating(a) => assert_eq!(a.decelerating_position.x_coordinate, -804),
        other => panic!("unexpected state {other:?}"),
    }
}

#[test]
fn rotating_stops_within_tolerance() {
    let state = NavComputerStates::Rotating(Rotating::new(RotateLeft));
    let (next, orders) = state.clone().run(pose(None, 0, 0, 100), pose(None, 0, 0, 110));
    assert_eq!(next, NavComputerStates::Stopped(Stopped));
    assert_eq!(orders, vec![MotorOrders::stop()]);
    let (next, orders) = state.run(pose(None, 0, 0, 100), pose(None, 0, 0, 111));
    assert_eq!(next, NavComputerStates::Rotating(Rotating::new(RotateLeft)));
    assert_eq!(
        orders,
        vec![MotorOrders::new(EngineOrder::SlowAhead, EngineOrder::SlowAstern, EngineOrder::SlowAstern, EngineOrder::SlowAhead)]
    );
}

#[test]
fn slow_ride_leans_in_when_seeking_a_lane() {
    let start = pose(None, 0, 0, 0);
    let state = NavComputerStates::SlowRide(SlowRide::new(Forward, Left, RotateRight, false, start));
    let target = go_forward_slowly_target(&pose(None, 0, 0, 0), 100).unwrap();
    let (next, orders) = state.clone().run(target, pose(None, 10, 0, 0));
    assert_eq!(next, state);
    assert_eq!(
        orders,
        vec![MotorOrders::new(EngineOrder::UnDeadSlowAhead, EngineOrder::DeadSlowAhead, EngineOrder::DeadSlowAhead, EngineOrder::UnDeadSlowAhead)]
    );
}

#[test]
fn navigation_tick_reports_arrival() {
    let tick = navigation_tick(NavComputerStates::Stopped(Stopped), pose(None, 20, 20, 5), pose(None, 0, 0, 0));
    assert!(tick.arrived);
    let tick = navigation_tick(tick.state, pose(None, 200, 20, 5), pose(None, 0, 0, 0));
    assert!(!tick.arrived);
}

#[test]
fn navigation_targets() {
    let here = pose(None, 100, 100, 90);
    let creep = go_forward_slowly_target(&here, 100).unwrap();
    assert_eq!(creep, pose(Some("LANE_SEEK"), 100, 0, 90));
    assert_eq!(undock_target(&here, 500).unwrap(), pose(None, -400, 100, 90));
    assert_eq!(dock_target(&here, 30, 40, -1).unwrap(), pose(None, 140, 130, 90));
    assert_eq!(dock_target(&here, 30, 40, 0).unwrap(), pose(None, 140, 100, 90));
}

#[test]
fn heading_from_degrees() {
    assert_eq!(Heading::from_degrees(0), Heading::North);
    assert_eq!(Heading::from_degrees(450), Heading::East);
    assert_eq!(Heading::from_degrees(45), Heading::NoClearOrientation);
    assert_eq!(Direction::from_value(Direction::to_value(Right)), Right);
}

#[test]
fn serialize_set_position_little_endian() {
    let c = SerialCommand::SetPosition(SetPosition::new(-2, 258, 300));
    assert_eq!(c.serialize(), vec![0x45, 0xfe, 0xff, 0xff, 0xff, 0x02, 0x01, 0x00, 0x00, 0x2c, 0x01]);
    let s = SerialCommand::SetSpeeds(SetSpeeds::new(EngineOrder::FullAhead, EngineOrder::Stop, EngineOrder::SlowAstern, EngineOrder::FullAstern));
    assert_eq!(s.serialize(), vec![0x35, 200, 100, 95, 1]);
    assert_eq!(SerialCommand::BeerMe.serialize(), vec![0x69]);
}

#[test]
fn decode_serial_responses() {
    assert_eq!(SerialResponse::try_from_bytes(&[0x31]), Ok(SerialResponse::Yes));
    assert_eq!(SerialResponse::try_from_bytes(&[0x32, 9]), Ok(SerialResponse::No));
    assert_eq!(
        SerialResponse::try_from_bytes(&[0x33, 1, 1, 0, 0, 0, 0, 0, 1, 90, 0]),
        Ok(SerialResponse::HavePosition(HavePositionResponse::new(257, 16777216, 90)))
    );
    assert_eq!(SerialResponse::try_from_bytes(&[0x33, 1]), Err(ResponseError::Truncated));
    assert_eq!(SerialResponse::try_from_bytes(&[]), Err(ResponseError::Empty));
    assert_eq!(SerialResponse::try_from_bytes(&[7]), Err(ResponseError::UnknownCode(7)));
}

#[test]
fn motor_index_from_index() {
    assert_eq!(MotorIndex::from_index(2), Some(MotorIndex::BackLeft));
    assert_eq!(MotorIndex::from_index(4), None);
}

fn store_request(start: &str, moves: &[(Direction, i32)], dest: &str) -> StoreRouteRequest {
    let route: VecDeque<DirectionMove> = moves.iter().map(|m| DirectionMove::new(m.0, m.1)).collect();
    StoreRouteRequest::new(start.to_string(), route, dest.to_string())
}

#[test]
fn busy_robot_rejects_mission() {
    let mut map = MapStorage::new();
    map.store_position(pose(Some("Home"), 0, 0, 0));
    assert!(map.store_route(&store_request("Home", &[(Forward, 10)], "A")).is_ok());
    let req = Requests::MissionRequest(MissionRequest::new(ActionType::GoToPosition, "Home".to_string(), "A".to_string()));
    let d = handle_request(req, &mut map, RobotStates::Busy);
    assert!(!matches!(d, Dispatch::Launch { .. }));
    assert_eq!(status_of(&d), Some(STATUS_BUSY));
}

#[test]
fn free_robot_launches_mission() {
    let mut map = MapStorage::new();
    let d = handle_request(Requests::DefineHome(DefineHomeRequest::new(0, 0, 0)), &mut map, RobotStates::Free);
    assert_eq!(status_of(&d), Some(STATUS_OK));
    let d = handle_request(Requests::StoreRoute(store_request("Home", &[(Forward, 10)], "A")), &mut map, RobotStates::Free);
    assert_eq!(status_of(&d), Some(STATUS_OK));
    let req = Requests::MissionRequest(MissionRequest::new(ActionType::TakePhoto, "Home".to_string(), "A".to_string()));
    match handle_request(req, &mut map, RobotStates::Free) {
        Dispatch::Launch { mission, .. } => {
            assert_eq!(mission.action, ActionType::TakePhoto);
            assert_eq!(mission.route, vec![pose(Some("Home"), 0, 0, 0), pose(Some("A"), 10, 0, 0)]);
        }
        _ => panic!("mission not launched"),
    }
}

#[test]
fn dispatcher_other_requests() {
    let mut map = MapStorage::new();
    assert!(matches!(handle_request(Requests::Photo(PhotoRequest::new()), &mut map, RobotStates::Free), Dispatch::Photograph));
    match handle_request(Requests::State(StateReqest::new()), &mut map, RobotStates::Busy) {
        Dispatch::Reply(Responses::StateResponse(s)) => assert_eq!(s.state, RobotStates::Busy),
        _ => panic!("no state response"),
    }
    let d = handle_request(Requests::DefineHome(DefineHomeRequest::new(0, 0, 400)), &mut map, RobotStates::Free);
    assert_eq!(status_of(&d), Some(STATUS_NOT_STORED));
    let d = handle_request(Requests::StoreRoute(store_request("X", &[(Forward, 1)], "Y")), &mut map, RobotStates::Free);
    assert_eq!(status_of(&d), Some(STATUS_NOT_STORED));
    let req = Requests::MissionRequest(MissionRequest::new(ActionType::GoToPosition, "X".to_string(), "Y".to_string()));
    assert_eq!(status_of(&handle_request(req, &mut map, RobotStates::Free)), Some(STATUS_ROUTE_NOT_FOUND));
    let req = Requests::MissionRequest(MissionRequest { action: ActionType::GoToPosition, route: RouteType::RelativeMovement(VecDeque::new()) });
    assert_eq!(status_of(&handle_request(req, &mut map, RobotStates::Free)), Some(STATUS_ROUTE_NOT_FOUND));
    assert_eq!(robot_state_after(MissionStatus::Completed), RobotStates::Free);
    assert_eq!(robot_state_after(MissionStatus::NotCompleted), RobotStates::Busy);
}

#[test]
fn insert_rack_mission_sequence() {
    let route = vec![pose(None, 0, 0, 0), pose(None, 10, 0, 0)];
    let m = ExecutableMission::new(ActionType::InsertRack { lane_number: 2 }, route.clone());
    let (p, c) = m.start();
    assert_eq!((p, c), (MissionPhase::FollowingRoute { waypoint: 0 }, MissionCommand::GoTo(route[0].clone())));
    let (p, c) = m.advance(p, MissionEvent::Arrived);
    assert_eq!(c, MissionCommand::GoTo(route[1].clone()));
    let (p, c) = m.advance(p, MissionEvent::Arrived);
    assert_eq!((p, c), (MissionPhase::Docking, MissionCommand::Dock));
    let (p, c) = m.advance(p, MissionEvent::Docked);
    assert_eq!(c, MissionCommand::SeekLane(100));
    let (p, c) = m.advance(p, MissionEvent::LaneReached);
    assert_eq!((p, c), (MissionPhase::SeekingLane { lanes_counted: 1 }, MissionCommand::SeekLane(100)));
    let (p, c) = m.advance(p, MissionEvent::LaneReached);
    assert_eq!((p, c.clone()), (MissionPhase::Inserting, MissionCommand::InsertRack));
    let (p, c) = m.advance(p, MissionEvent::RackConfirmed);
    assert_eq!(c, MissionCommand::Undock(500));
    let (p, c) = m.advance(p, MissionEvent::Undocked);
    assert_eq!(c, MissionCommand::RetrieveRack);
    let (p, c) = m.advance(p, MissionEvent::RackConfirmed);
    assert_eq!((p, c), (MissionPhase::Finished, MissionCommand::Report(MissionStatus::Completed)));
}

#[test]
fn remove_rack_counts_two_lanes_per_pulse() {
    let m = ExecutableMission::new(ActionType::RemoveRack { lane_number: 3 }, vec![]);
    let (p, c) = m.start();
    assert_eq!(c, MissionCommand::Dock);
    let (p, _) = m.advance(p, MissionEvent::Docked);
    let (p, c) = m.advance(p, MissionEvent::LaneReached);
    assert_eq!((p, c), (MissionPhase::SeekingLane { lanes_counted: 2 }, MissionCommand::SeekLane(100)));
    let (p, c) = m.advance(p, MissionEvent::LaneReached);
    assert_eq!((p, c), (MissionPhase::Finished, MissionCommand::Report(MissionStatus::Completed)));

    let m = ExecutableMission::new(ActionType::RemoveRack { lane_number: 2 }, vec![]);
    let (p, _) = m.advance(MissionPhase::SeekingLane { lanes_counted: 0 }, MissionEvent::LaneReached);
    assert_eq!(p, MissionPhase::Retrieving);
    let (p, c) = m.advance(p, MissionEvent::RackConfirmed);
    assert_eq!(c, MissionCommand::Undock(500));
    let (_, c) = m.advance(p, MissionEvent::Undocked);
    assert_eq!(c, MissionCommand::Report(MissionStatus::Completed));
}

#[test]
fn failed_docking_still_completes() {
    let m = ExecutableMission::new(ActionType::InsertRack { lane_number: 1 }, vec![]);
    let (p, _) = m.start();
    let (p, c) = m.advance(p, MissionEvent::DockingFailed);
    assert_eq!((p, c), (MissionPhase::Finished, MissionCommand::Report(MissionStatus::Completed)));
    let (p, c) = m.advance(MissionPhase::Docking, MissionEvent::LaneReached);
    assert_eq!((p, c), (MissionPhase::Docking, MissionCommand::Wait));
}

#[test]
fn photo_and_plain_missions() {
    let m = ExecutableMission::new(ActionType::TakePhoto, vec![]);
    let (p, c) = m.start();
    assert_eq!(c, MissionCommand::TakePhoto);
    assert_eq!(m.advance(p, MissionEvent::PhotoTaken).1, MissionCommand::Report(MissionStatus::Completed));
    let m = ExecutableMission::new(ActionType::GoToPosition, vec![]);
    assert_eq!(m.start().1, MissionCommand::Report(MissionStatus::Completed));
}

fn ideal_motion(o: MotorOrders) -> Direction {
    for d in [Forward, Backward, Left, Right, RotateRight, RotateLeft] {
        for (slow, lean) in [(false, false), (true, false), (true, true)] {
            if d.motors_setting(slow, lean) == o {
                return d;
            }
        }
    }
    Direction::NoMovement
}

fn ideal_move(p: &Position, o: MotorOrders) -> Position {
    let mut q = p.clone();
    match ideal_motion(o) {
        RotateRight => q.theta = (p.theta + 1) % 360,
        RotateLeft => q.theta = (p.theta + 359) % 360,
        Direction::NoMovement => {}
        d => {
            if p.theta % 90 == 0 && p.theta < 360 {
                let quarter = (p.theta / 90) as i16;
                let index = (Direction::to_value(d) - quarter).rem_euclid(4);
                let (dx, dy) = [(1, 0), (0, 1), (-1, 0), (0, -1)][index as usize];
                q.x_coordinate += dx;
                q.y_coordinate += dy;
            }
        }
    }
    q
}

fn drive_to(start: Position, target: Position) -> (Position, usize) {
    let mut state = NavComputerStates::Stopped(Stopped);
    let mut running = MotorOrders::stop();
    let mut here = start;
    for tick in 1..200_000 {
        let (next, orders) = state.run(target.clone(), here.clone());
        if let Some(last) = orders.last() {
            running = *last;
        }
        here = ideal_move(&here, running);
        state = next;
        if state == NavComputerStates::Stopped(Stopped) {
            return (here, tick);
        }
    }
    panic!("the controller never came to rest");
}

#[test]
fn ideal_chassis_reaches_target() {
    let cases = [
        (pose(None, 0, 0, 0), pose(None, 500, -300, 270)),
        (pose(None, 100, 100, 90), pose(None, -250, 400, 45)),
        (pose(None, -20, 7, 180), pose(None, -60, 7, 200)),
        (pose(None, 0, 0, 270), pose(None, 1000, 1000, 360)),
        (pose(None, 3, 3, 0), pose(None, 3, 3, 0)),
    ];
    for (start, target) in cases {
        let (end, ticks) = drive_to(start, target.clone());
        assert!(end.equals(&target), "ended at {end:?}, target {target:?}");
        assert!(ticks >= 1);
    }
}

#[test]
fn simulator_configuration() {
    assert!(is_valid_efficiency(100));
    assert!(!is_valid_efficiency(101));
    let mut start = StartConfig::new(1, 2, 90);
    start.set_x(5);
    start.set_orientation(180);
    assert_eq!((start.x(), start.y(), start.orientation()), (5, 2, 180));
    let mut target = TargetConfig::new(0, 0, 0);
    target.set_y(-3);
    let mut eff = MotorEfficiencies::new(90, 91, 92, 93);
    eff.set_back_right(80);
    assert_eq!((eff.front_right(), eff.front_left(), eff.back_left(), eff.back_right()), (90, 91, 92, 80));
    let mut config = Config::new(start, target, eff);
    config.set_target(TargetConfig::new(7, 8, 270));
    assert_eq!(config.target().x(), 7);
    assert_eq!(config.start().x(), 5);
    assert_eq!(config.motor_efficiencies().back_right(), 80);
}

#[test]
fn controller_events_start_untouched() {
    let events = raspi::teleop::ControllerEvents::new();
    assert_eq!(events.left_motor_bank_value, raspi::teleop::UNTOUCHED);
    assert!(events.should_continue && !events.quit_after_controller);
    let pump = raspi::pump_teleop::ControllerEvents::new();
    assert!(pump.should_continue_reading);
    assert_eq!(pump.triangle_button_value, 6969);
}

#[test]
fn position_answer_to_pose() {
    let answer = SerialResponse::HavePosition(HavePositionResponse::new(u32::MAX, 5, 90));
    assert_eq!(answer.to_position(), Ok(pose(None, -1, 5, 90)));
    assert_eq!(SerialResponse::Yes.to_position(), Err(RobotError::PositionNotFound));
    let bad = SerialResponse::HavePosition(HavePositionResponse::new(0, 0, 400));
    assert_eq!(bad.to_position(), Err(RobotError::InvalidPose));
}
