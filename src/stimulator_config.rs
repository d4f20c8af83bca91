use vstd::prelude::*;

verus! {

/// The largest efficiency a motor can be given, in percent.
pub const MAX_EFFICIENCY: u16 = 100;

/// An efficiency a motor can have: at most 100 percent.
pub fn is_valid_efficiency(efficiency: u16) -> (r: bool)
    ensures
        r == (efficiency <= MAX_EFFICIENCY),
{
    efficiency <= MAX_EFFICIENCY
}

/// Where the simulated robot starts.
#[derive(Debug, Clone, Copy, PartialEq, Eq, Structural, Default)]
pub struct StartConfig {
    pub x: i32,
    pub y: i32,
    pub orientation: u16,
}

impl StartConfig {
    pub fn new(x: i32, y: i32, orientation: u16) -> (r: Self)
        ensures
            r.x == x,
            r.y == y,
            r.orientation == orientation,
    {
        Self { x, y, orientation }
    }

    pub fn set_x(&mut self, x: i32)
        ensures
            *final(self) == (StartConfig { x, ..*old(self) }),
    {
        self.x = x;
    }

    pub fn set_y(&mut self, y: i32)
        ensures
            *final(self) == (StartConfig { y, ..*old(self) }),
    {
        self.y = y;
    }

    pub fn set_orientation(&mut self, orientation: u16)
        ensures
            *final(self) == (StartConfig { orientation, ..*old(self) }),
    {
        self.orientation = orientation;
    }

    pub fn x(&self) -> (r: i32)
        ensures
            r == self.x,
    {
        self.x
    }

    pub fn y(&self) -> (r: i32)
        ensures
            r == self.y,
    {
        self.y
    }

    pub fn orientation(&self) -> (r: u16)
        ensures
            r == self.orientation,
    {
        self.orientation
    }
}

/// Where the simulated robot is sent for calibration.
#[derive(Debug, Clone, Copy, PartialEq, Eq, Structural, Default)]
pub struct TargetConfig {
    pub x: i32,
    pub y: i32,
    pub orientation: u16,
}

impl TargetConfig {
    pub fn new(x: i32, y: i32, orientation: u16) -> (r: Self)
        ensures
            r.x == x,
            r.y == y,
            r.orientation == orientation,
    {
        Self { x, y, orientation }
    }

    pub fn set_x(&mut self, x: i32)
        ensures
            *final(self) == (TargetConfig { x, ..*old(self) }),
    {
        self.x = x;
    }

    pub fn set_y(&mut self, y: i32)
        ensures
            *final(self) == (TargetConfig { y, ..*old(self) }),
    {
        self.y = y;
    }

    pub fn set_orientation(&mut self, orientation: u16)
        ensures
            *final(self) == (TargetConfig { orientation, ..*old(self) }),
    {
        self.orientation = orientation;
    }

    pub fn x(&self) -> (r: i32)
        ensures
            r == self.x,
    {
        self.x
    }

    pub fn y(&self) -> (r: i32)
        ensures
            r == self.y,
    {
        self.y
    }

    pub fn orientation(&self) -> (r: u16)
        ensures
            r == self.orientation,
    {
        self.orientation
    }
}

/// Per-motor efficiency, in percent, used by the simulator.
#[derive(Debug, Clone, Copy, PartialEq, Eq, Structural, Default)]
pub struct MotorEfficiencies {
    pub front_right: u16,
    pub front_left: u16,
    pub back_left: u16,
    pub back_right: u16,
}

impl MotorEfficiencies {
    pub fn new(front_right: u16, front_left: u16, back_left: u16, back_right: u16) -> (r: Self)
        ensures
            r == (MotorEfficiencies { front_right, front_left, back_left, back_right }),
    {
        Self { front_right, front_left, back_left, back_right }
    }

    pub fn set_front_right(&mut self, front_right: u16)
        ensures
            *final(self) == (MotorEfficiencies { front_right, ..*old(self) }),
    {
        self.front_right = front_right;
    }

    pub fn set_front_left(&mut self, front_left: u16)
        ensures
            *final(self) == (MotorEfficiencies { front_left, ..*old(self) }),
    {
        self.front_left = front_left;
    }

    pub fn set_back_left(&mut self, back_left: u16)
        ensures
            *final(self) == (MotorEfficiencies { back_left, ..*old(self) }),
    {
        self.back_left = back_left;
    }

    pub fn set_back_right(&mut self, back_right: u16)
        ensures
            *final(self) == (MotorEfficiencies { back_right, ..*old(self) }),
    {
        self.back_right = back_right;
    }

    pub fn front_right(&self) -> (r: u16)
        ensures
            r == self.front_right,
    {
        self.front_right
    }

    pub fn front_left(&self) -> (r: u16)
        ensures
            r == self.front_left,
    {
        self.front_left
    }

    pub fn back_left(&self) -> (r: u16)
        ensures
            r == self.back_left,
    {
        self.back_left
    }

    pub fn back_right(&self) -> (r: u16)
        ensures
            r == self.back_right,
    {
        self.back_right
    }
}

/// The simulator's calibration: where it starts, where it should go, and how well
/// each motor pulls.
#[derive(Debug, Clone, Copy, PartialEq, Eq, Structural, Default)]
pub struct Config {
    pub start: StartConfig,
    pub target: TargetConfig,
    pub motor_efficiencies: MotorEfficiencies,
}

impl Config {
    pub fn new(start: StartConfig, target: TargetConfig, motor_efficiencies: MotorEfficiencies) -> (r: Self)
        ensures
            r == (Config { start, target, motor_efficiencies }),
    {
        Self { start, target, motor_efficiencies }
    }

    pub fn set_start(&mut self, start: StartConfig)
        ensures
            *final(self) == (Config { start, ..*old(self) }),
    {
        self.start = start;
    }

    pub fn set_target(&mut self, target: TargetConfig)
        ensures
            *final(self) == (Config { target, ..*old(self) }),
    {
        self.target = target;
    }

    pub fn set_motor_efficiencies(&mut self, motor_efficiencies: MotorEfficiencies)
        ensures
            *final(self) == (Config { motor_efficiencies, ..*old(self) }),
    {
        self.motor_efficiencies = motor_efficiencies;
    }

    pub fn start(&self) -> (r: &StartConfig)
        ensures
            *r == self.start,
    {
        &self.start
    }

    pub fn target(&self) -> (r: &TargetConfig)
        ensures
            *r == self.target,
    {
        &self.target
    }

    pub fn motor_efficiencies(&self) -> (r: &MotorEfficiencies)
        ensures
            *r == self.motor_efficiencies,
    {
        &self.motor_efficiencies
    }
}

} // verus!
