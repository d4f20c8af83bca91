use vstd::prelude::*;

verus! {

/// Whether the robot can take a mission.
#[derive(Debug, Clone, Copy, PartialEq, Eq, Structural)]
pub enum RobotStates {
    Busy,
    Free,
}

/// A photograph, as encoded image bytes.
#[derive(Debug, Clone)]
pub struct PhotoResponse {
    pub photo_data: Vec<u8>,
}

/// The robot's availability.
#[derive(Debug, Clone, Copy, PartialEq, Eq, Structural)]
pub struct StateResponse {
    pub state: RobotStates,
}

/// A status code with a message.
#[derive(Debug, Clone)]
pub struct GeneralResponse {
    pub status: u16,
    pub message: String,
}

/// Every answer the robot gives.
#[derive(Debug, Clone)]
pub enum Responses {
    PhotoResponse(PhotoResponse),
    StateResponse(StateResponse),
    GeneralResponse(GeneralResponse),
}

impl StateResponse {
    pub fn new(robot_state: RobotStates) -> (r: Self)
        ensures
            r.state == robot_state,
    {
        Self { state: robot_state }
    }
}

impl PhotoResponse {
    pub fn new(photo_data: Vec<u8>) -> (r: Self)
        ensures
            r.photo_data == photo_data,
    {
        Self { photo_data }
    }
}

impl GeneralResponse {
    pub fn new(status: u16, message: String) -> (r: Self)
        ensures
            r.status == status,
            r.message == message,
    {
        Self { status, message }
    }
}

} // verus!
