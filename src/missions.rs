use vstd::prelude::*;
use crate::navigation::{LANE_SEEK_STEP, UNDOCK_DISTANCE};
use crate::pose::Position;
use crate::route_storage::RouteKey;

verus! {

/// The physical task a mission performs once its route is driven.
#[derive(Debug, Clone, Copy, PartialEq, Eq, Structural)]
pub enum ActionType {
    GoToPosition,
    InsertRack { lane_number: u8 },
    RemoveRack { lane_number: u8 },
    TakePhoto,
    BeerMe,
}

/// A mission ready to run: its action and the poses of its route, in order.
#[derive(Debug, Clone)]
pub struct ExecutableMission {
    pub action: ActionType,
    pub route: Vec<Position>,
}

/// What the mission controller reports when a mission ends.
#[derive(Debug, Clone, Copy, PartialEq, Eq, Structural)]
pub enum MissionStatus {
    Completed,
    NotCompleted,
}

impl ExecutableMission {
    pub fn new(action: ActionType, route: Vec<Position>) -> (r: ExecutableMission)
        ensures
            r.action == action,
            r.route == route,
    {
        ExecutableMission { action, route }
    }
}

/// A route-following mission, keyed by its route.
#[derive(Debug, Clone, PartialEq)]
pub struct GoToPosition {
    pub route: RouteKey,
}

/// A rack-insertion mission, keyed by its route.
#[derive(Debug, Clone, PartialEq)]
pub struct InsertRack {
    pub route: RouteKey,
}

/// A rack-removal mission, keyed by its route.
#[derive(Debug, Clone, PartialEq)]
pub struct RemoveRack {
    pub route: RouteKey,
}

/// A photograph mission, keyed by its route.
#[derive(Debug, Clone, PartialEq)]
pub struct TakePhoto {
    pub route: RouteKey,
}


/// Where a running mission stands.
#[derive(Debug, Clone, Copy, PartialEq, Eq, Structural)]
pub enum MissionPhase {
    /// Driving to the waypoint with this index.
    FollowingRoute { waypoint: usize },
    /// Waiting for the photograph.
    TakingPhoto,
    /// Waiting for the robot to dock at the marker.
    Docking,
    /// Creeping along the rack; this many lanes are counted so far.
    SeekingLane { lanes_counted: u8 },
    /// Waiting for the rack to be pushed in.
    Inserting,
    /// Waiting for the undock after an insertion.
    UndockingAfterInsert,
    /// Waiting for the pusher to be pulled back after an insertion.
    Retracting,
    /// Waiting for the rack to be pulled out.
    Retrieving,
    /// Waiting for the undock after a removal.
    UndockingAfterRemove,
    /// Done; the status is sent.
    Finished,
}

/// What the mission controller asks the hardware side to do next.
#[derive(Debug, Clone, PartialEq)]
pub enum MissionCommand {
    /// Drive to this pose and report arrival.
    GoTo(Position),
    /// Light the indicator, photograph, put the indicator out.
    TakePhoto,
    /// Find the marker and dock next to it, confirmed by the bumper buttons.
    Dock,
    /// Creep forward this far and report the next lane.
    SeekLane(i32),
    /// Push the rack in and report when it is seated.
    InsertRack,
    /// Pull the rack back and report when it is clear.
    RetrieveRack,
    /// Strafe away from the instrument this far and report arrival.
    Undock(i32),
    /// Send this status upstream; the mission is over.
    Report(MissionStatus),
    /// Nothing to do until the awaited event comes.
    Wait,
}

/// What the hardware side reports back.
#[derive(Debug, Clone, Copy, PartialEq, Eq, Structural)]
pub enum MissionEvent {
    Arrived,
    PhotoTaken,
    Docked,
    DockingFailed,
    LaneReached,
    RackConfirmed,
    Undocked,
}

/// The lanes one lane sensor pulse counts for: one when inserting, two when removing.
pub open spec fn lane_increment(a: ActionType) -> int {
    match a {
        ActionType::RemoveRack { .. } => 2,
        _ => 1,
    }
}

/// The lane at which the rack action happens; zero for the other actions.
pub open spec fn target_lane(a: ActionType) -> int {
    match a {
        ActionType::InsertRack { lane_number } => lane_number as int,
        ActionType::RemoveRack { lane_number } => lane_number as int,
        _ => 0,
    }
}

/// What follows the last waypoint: the mission's own action.
pub open spec fn action_start(a: ActionType) -> (MissionPhase, MissionCommand) {
    match a {
        ActionType::TakePhoto => (MissionPhase::TakingPhoto, MissionCommand::TakePhoto),
        ActionType::InsertRack { .. } => (MissionPhase::Docking, MissionCommand::Dock),
        ActionType::RemoveRack { .. } => (MissionPhase::Docking, MissionCommand::Dock),
        _ => (MissionPhase::Finished, MissionCommand::Report(MissionStatus::Completed)),
    }
}

/// The mission's first phase and command: the first waypoint, or the action itself
/// for an empty route.
pub open spec fn mission_start(route: Seq<Position>, a: ActionType) -> (MissionPhase, MissionCommand) {
    if route.len() > 0 {
        (MissionPhase::FollowingRoute { waypoint: 0 }, MissionCommand::GoTo(route[0]))
    } else {
        action_start(a)
    }
}

/// How a mission moves on when an event comes in. Waypoints are visited in order;
/// after the last one the action runs. A failed docking skips the action. Each lane
/// pulse adds to the count; the rack action happens when the count reaches the lane
/// number, and the mission gives up on the action once the count has passed it. The
/// mission always ends by reporting it completed. An event the phase does not wait
/// for changes nothing.
pub open spec fn mission_next(
    route: Seq<Position>,
    a: ActionType,
    phase: MissionPhase,
    e: MissionEvent,
) -> (MissionPhase, MissionCommand) {
    let done = (MissionPhase::Finished, MissionCommand::Report(MissionStatus::Completed));
    match (phase, e) {
        (MissionPhase::FollowingRoute { waypoint }, MissionEvent::Arrived) => {
            if waypoint + 1 < route.len() {
                (
                    MissionPhase::FollowingRoute { waypoint: (waypoint + 1) as usize },
                    MissionCommand::GoTo(route[waypoint + 1]),
                )
            } else {
                action_start(a)
            }
        },
        (MissionPhase::TakingPhoto, MissionEvent::PhotoTaken) => done,
        (MissionPhase::Docking, MissionEvent::Docked) => (
            MissionPhase::SeekingLane { lanes_counted: 0 },
            MissionCommand::SeekLane(LANE_SEEK_STEP),
        ),
        (MissionPhase::Docking, MissionEvent::DockingFailed) => done,
        (MissionPhase::SeekingLane { lanes_counted }, MissionEvent::LaneReached) => {
            let counted = lanes_counted + lane_increment(a);
            if counted == target_lane(a) {
                match a {
                    ActionType::InsertRack { .. } => (MissionPhase::Inserting, MissionCommand::InsertRack),
                    _ => (MissionPhase::Retrieving, MissionCommand::RetrieveRack),
                }
            } else if counted > target_lane(a) {
                done
            } else {
                (
                    MissionPhase::SeekingLane { lanes_counted: counted as u8 },
                    MissionCommand::SeekLane(LANE_SEEK_STEP),
                )
            }
        },
        (MissionPhase::Inserting, MissionEvent::RackConfirmed) => (
            MissionPhase::UndockingAfterInsert,
            MissionCommand::Undock(UNDOCK_DISTANCE),
        ),
        (MissionPhase::UndockingAfterInsert, MissionEvent::Undocked) => (
            MissionPhase::Retracting,
            MissionCommand::RetrieveRack,
        ),
        (MissionPhase::Retracting, MissionEvent::RackConfirmed) => done,
        (MissionPhase::Retrieving, MissionEvent::RackConfirmed) => (
            MissionPhase::UndockingAfterRemove,
            MissionCommand::Undock(UNDOCK_DISTANCE),
        ),
        (MissionPhase::UndockingAfterRemove, MissionEvent::Undocked) => done,
        _ => (phase, MissionCommand::Wait),
    }
}

/// The command that ends the mission.
fn finish() -> (r: (MissionPhase, MissionCommand))
    ensures
        r == (MissionPhase::Finished, MissionCommand::Report(MissionStatus::Completed)),
{
    (MissionPhase::Finished, MissionCommand::Report(MissionStatus::Completed))
}

/// The phase and command that start the mission's action.
fn start_action(a: ActionType) -> (r: (MissionPhase, MissionCommand))
    ensures
        r == action_start(a),
{
    match a {
        ActionType::TakePhoto => (MissionPhase::TakingPhoto, MissionCommand::TakePhoto),
        ActionType::InsertRack { .. } => (MissionPhase::Docking, MissionCommand::Dock),
        ActionType::RemoveRack { .. } => (MissionPhase::Docking, MissionCommand::Dock),
        _ => finish(),
    }
}

impl ExecutableMission {
    /// The first phase and command of the mission.
    pub fn start(&self) -> (r: (MissionPhase, MissionCommand))
        ensures
            r == mission_start(self.route@, self.action),
    {
        if self.route.len() > 0 {
            (MissionPhase::FollowingRoute { waypoint: 0 }, MissionCommand::GoTo(self.route[0].duplicate()))
        } else {
            start_action(self.action)
        }
    }

    /// Advances the mission on an event from the hardware side.
    pub fn advance(&self, phase: MissionPhase, event: MissionEvent) -> (r: (MissionPhase, MissionCommand))
        ensures
            r == mission_next(self.route@, self.action, phase, event),
    {
        match (phase, event) {
            (MissionPhase::FollowingRoute { waypoint }, MissionEvent::Arrived) => {
                if waypoint < self.route.len() && waypoint + 1 < self.route.len() {
                    (
                        MissionPhase::FollowingRoute { waypoint: waypoint + 1 },
                        MissionCommand::GoTo(self.route[waypoint + 1].duplicate()),
                    )
                } else {
                    start_action(self.action)
                }
            },
            (MissionPhase::TakingPhoto, MissionEvent::PhotoTaken) => finish(),
            (MissionPhase::Docking, MissionEvent::Docked) => (
                MissionPhase::SeekingLane { lanes_counted: 0 },
                MissionCommand::SeekLane(LANE_SEEK_STEP),
            ),
            (MissionPhase::Docking, MissionEvent::DockingFailed) => finish(),
            (MissionPhase::SeekingLane { lanes_counted }, MissionEvent::LaneReached) => {
                let (increment, lane): (u16, u16) = match self.action {
                    ActionType::InsertRack { lane_number } => (1, lane_number as u16),
                    ActionType::RemoveRack { lane_number } => (2, lane_number as u16),
                    _ => (1, 0),
                };
                let counted: u16 = lanes_counted as u16 + increment;
                if counted == lane {
                    match self.action {
                        ActionType::InsertRack { .. } => (MissionPhase::Inserting, MissionCommand::InsertRack),
                        _ => (MissionPhase::Retrieving, MissionCommand::RetrieveRack),
                    }
                } else if counted > lane {
                    finish()
                } else {
                    (
                        MissionPhase::SeekingLane { lanes_counted: counted as u8 },
                        MissionCommand::SeekLane(LANE_SEEK_STEP),
                    )
                }
            },
            (MissionPhase::Inserting, MissionEvent::RackConfirmed) => (
                MissionPhase::UndockingAfterInsert,
                MissionCommand::Undock(UNDOCK_DISTANCE),
            ),
            (MissionPhase::UndockingAfterInsert, MissionEvent::Undocked) => (
                MissionPhase::Retracting,
                MissionCommand::RetrieveRack,
            ),
            (MissionPhase::Retracting, MissionEvent::RackConfirmed) => finish(),
            (MissionPhase::Retrieving, MissionEvent::RackConfirmed) => (
                MissionPhase::UndockingAfterRemove,
                MissionCommand::Undock(UNDOCK_DISTANCE),
            ),
            (MissionPhase::UndockingAfterRemove, MissionEvent::Undocked) => finish(),
            _ => (phase, MissionCommand::Wait),
        }
    }
}

} // verus!
