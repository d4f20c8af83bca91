use vstd::prelude::*;
use crate::pose::Position;

verus! {

/// One of the four wheel motors.
#[derive(Debug, Clone, Copy, PartialEq, Eq, Structural, Hash)]
pub enum MotorIndex {
    FrontRight,
    FrontLeft,
    BackLeft,
    BackRight,
}

/// A discrete speed and direction level for one wheel.
#[derive(Debug, Clone, Copy, PartialEq, Eq, Structural, Hash)]
pub enum EngineOrder {
    FullAhead,
    SlowAhead,
    UnDeadSlowAhead,
    DeadSlowAhead,
    Stop,
    DeadSlowAstern,
    SlowAstern,
    FullAstern,
}

/// The byte that carries an order to the motor controller; 100 is standing still,
/// larger is ahead and smaller is astern.
pub open spec fn order_byte(o: EngineOrder) -> u8 {
    match o {
        EngineOrder::FullAhead => 200,
        EngineOrder::SlowAhead => 105,
        EngineOrder::UnDeadSlowAhead => 103,
        EngineOrder::DeadSlowAhead => 102,
        EngineOrder::Stop => 100,
        EngineOrder::DeadSlowAstern => 98,
        EngineOrder::SlowAstern => 95,
        EngineOrder::FullAstern => 1,
    }
}

impl EngineOrder {
    /// The order's byte on the wire.
    pub fn to_byte(self) -> (r: u8)
        ensures
            r == order_byte(self),
    {
        match self {
            EngineOrder::FullAhead => 200,
            EngineOrder::SlowAhead => 105,
            EngineOrder::UnDeadSlowAhead => 103,
            EngineOrder::DeadSlowAhead => 102,
            EngineOrder::Stop => 100,
            EngineOrder::DeadSlowAstern => 98,
            EngineOrder::SlowAstern => 95,
            EngineOrder::FullAstern => 1,
        }
    }
}

impl MotorIndex {
    /// The motor with a given index: 0 front right, 1 front left, 2 back left,
    /// 3 back right.
    pub fn from_index(index: u8) -> (r: Option<MotorIndex>)
        ensures
            index == 0 ==> r == Some(MotorIndex::FrontRight),
            index == 1 ==> r == Some(MotorIndex::FrontLeft),
            index == 2 ==> r == Some(MotorIndex::BackLeft),
            index == 3 ==> r == Some(MotorIndex::BackRight),
            index > 3 ==> r is None,
    {
        match index {
            0 => Some(MotorIndex::FrontRight),
            1 => Some(MotorIndex::FrontLeft),
            2 => Some(MotorIndex::BackLeft),
            3 => Some(MotorIndex::BackRight),
            _ => None,
        }
    }
}

/// The orders for all four wheels at once.
#[derive(Debug, Clone, Copy, PartialEq, Eq, Structural)]
pub struct MotorOrders {
    pub front_right: EngineOrder,
    pub front_left: EngineOrder,
    pub back_left: EngineOrder,
    pub back_right: EngineOrder,
}

/// Every wheel stopped: the safe default.
pub open spec fn all_stop() -> MotorOrders {
    MotorOrders {
        front_right: EngineOrder::Stop,
        front_left: EngineOrder::Stop,
        back_left: EngineOrder::Stop,
        back_right: EngineOrder::Stop,
    }
}

impl MotorOrders {
    pub fn new(front_right: EngineOrder, front_left: EngineOrder, back_left: EngineOrder, back_right: EngineOrder) -> (r: MotorOrders)
        ensures
            r == (MotorOrders { front_right, front_left, back_left, back_right }),
    {
        MotorOrders { front_right, front_left, back_left, back_right }
    }

    /// Every wheel stopped.
    pub fn stop() -> (r: MotorOrders)
        ensures
            r == all_stop(),
    {
        MotorOrders {
            front_right: EngineOrder::Stop,
            front_left: EngineOrder::Stop,
            back_left: EngineOrder::Stop,
            back_right: EngineOrder::Stop,
        }
    }
}

/// The identifiers of the two microcontrollers, used to find their serial ports.
#[derive(Debug, Clone, PartialEq)]
pub struct Config {
    pub utilitiesp_proccessor_id: String,
    pub drivesp_proccessor_id: String,
}

/// What the robot's hardware offers to the control logic; implemented by the
/// serial driver and by the simulator.
pub trait ChassisTraits {
    fn set_motor_speeds(
        &mut self,
        front_right_motor_speed: EngineOrder,
        front_left_motor_speed: EngineOrder,
        back_left_motor_speed: EngineOrder,
        back_right_motor_speed: EngineOrder,
    );

    fn stop_motors(&mut self);

    fn get_position(&mut self) -> Result<Position, String>;

    fn insert_rack(&mut self);

    fn retrieve_rack(&mut self);

    fn are_buttons_pressed(&mut self) -> bool;

    fn arrived_at_a_lane(&mut self) -> bool;

    fn set_position(&mut self, position: Position);

    fn is_rack_inserted(&mut self) -> bool;

    fn is_rack_extracted(&mut self) -> bool;

    fn beer_me(&mut self);

    fn on_led(&mut self);

    fn off_led(&mut self);
}

} // verus!
