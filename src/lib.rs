//! Navigation and mission logic for a small wheeled robot: poses, recorded
//! routes, the per-tick motion controller, mission sequencing and request
//! dispatch, with the serial command codec used to reach its peripherals.

pub mod chassis;
pub mod dispatcher;
pub mod missions;
pub mod moves;
pub mod nav_states;
pub mod nav_liveness;
pub mod navigation;
pub mod pose;
pub mod pump_teleop;
pub mod requests;
pub mod responses;
pub mod route_math;
pub mod route_storage;
pub mod serial_commands;
pub mod serial_responses;
pub mod stimulator_config;
pub mod store_route_helper;
pub mod teleop;
