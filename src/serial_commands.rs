use vstd::prelude::*;
use crate::chassis::{order_byte, EngineOrder};

verus! {

/// Wheel speeds as raw bytes, front right first.
#[derive(Debug, Clone, Copy, PartialEq, Eq, Structural)]
pub struct SetSpeeds {
    pub front_right_motor: u8,
    pub front_left_motor: u8,
    pub back_left_motor: u8,
    pub back_right_motor: u8,
}

/// A pose to load into the drive controller's odometry.
#[derive(Debug, Clone, Copy, PartialEq, Eq, Structural)]
pub struct SetPosition {
    pub x_coordinate: i32,
    pub y_coordinate: i32,
    pub theta: u16,
}

/// Asks the drive controller for its pose.
#[derive(Debug, Clone, Copy, PartialEq, Eq, Structural)]
pub struct GiveMePosition {}

/// A command to one of the two microcontrollers.
#[derive(Debug, Clone, Copy, PartialEq, Eq, Structural)]
pub enum SerialCommand {
    SetSpeeds(SetSpeeds),
    SetPosition(SetPosition),
    OnLED,
    OffLED,
    BtnPressed,
    ReachedLane,
    PushRack,
    IsItIn,
    IsItOut,
    PullRack,
    GiveMePosition(GiveMePosition),
    BeerMe,
}

/// The first byte of each command on the wire.
#[derive(Debug, Clone, Copy, PartialEq, Eq, Structural)]
pub enum FirmwareCommandType {
    GiveMePosition,
    SetSpeed,
    OnLED,
    OffLED,
    BtnPressed,
    ReachedLane,
    PushRack,
    IsItIn,
    PullRack,
    IsItOut,
    SetPosition,
    BeerMe,
}

/// The byte that opens a command of the given type.
pub open spec fn command_code(t: FirmwareCommandType) -> u8 {
    match t {
        FirmwareCommandType::GiveMePosition => 0x34,
        FirmwareCommandType::SetSpeed => 0x35,
        FirmwareCommandType::OnLED => 0x36,
        FirmwareCommandType::OffLED => 0x37,
        FirmwareCommandType::BtnPressed => 0x38,
        FirmwareCommandType::ReachedLane => 0x39,
        FirmwareCommandType::PushRack => 0x41,
        FirmwareCommandType::IsItIn => 0x42,
        FirmwareCommandType::PullRack => 0x43,
        FirmwareCommandType::IsItOut => 0x44,
        FirmwareCommandType::SetPosition => 0x45,
        FirmwareCommandType::BeerMe => 0x69,
    }
}

impl FirmwareCommandType {
    pub fn code(self) -> (r: u8)
        ensures
            r == command_code(self),
    {
        match self {
            FirmwareCommandType::GiveMePosition => 0x34,
            FirmwareCommandType::SetSpeed => 0x35,
            FirmwareCommandType::OnLED => 0x36,
            FirmwareCommandType::OffLED => 0x37,
            FirmwareCommandType::BtnPressed => 0x38,
            FirmwareCommandType::ReachedLane => 0x39,
            FirmwareCommandType::PushRack => 0x41,
            FirmwareCommandType::IsItIn => 0x42,
            FirmwareCommandType::PullRack => 0x43,
            FirmwareCommandType::IsItOut => 0x44,
            FirmwareCommandType::SetPosition => 0x45,
            FirmwareCommandType::BeerMe => 0x69,
        }
    }
}

/// The four bytes of a 32-bit value, least significant first.
pub open spec fn le_bytes_u32(v: u32) -> Seq<u8> {
    seq![(v % 256) as u8, ((v / 256) % 256) as u8, ((v / 65536) % 256) as u8, (v / 16777216) as u8]
}

/// The two bytes of a 16-bit value, least significant first.
pub open spec fn le_bytes_u16(v: u16) -> Seq<u8> {
    seq![(v % 256) as u8, (v / 256) as u8]
}

/// The bytes of a command on the wire: its type byte, then its fields, multi-byte
/// values least significant byte first (signed ones in two's complement).
pub open spec fn command_bytes(c: SerialCommand) -> Seq<u8> {
    match c {
        SerialCommand::SetSpeeds(d) => seq![
            command_code(FirmwareCommandType::SetSpeed),
            d.front_right_motor,
            d.front_left_motor,
            d.back_left_motor,
            d.back_right_motor,
        ],
        SerialCommand::SetPosition(d) => seq![command_code(FirmwareCommandType::SetPosition)]
            + le_bytes_u32(d.x_coordinate as u32) + le_bytes_u32(d.y_coordinate as u32)
            + le_bytes_u16(d.theta),
        SerialCommand::OnLED => seq![command_code(FirmwareCommandType::OnLED)],
        SerialCommand::OffLED => seq![command_code(FirmwareCommandType::OffLED)],
        SerialCommand::BtnPressed => seq![command_code(FirmwareCommandType::BtnPressed)],
        SerialCommand::ReachedLane => seq![command_code(FirmwareCommandType::ReachedLane)],
        SerialCommand::PushRack => seq![command_code(FirmwareCommandType::PushRack)],
        SerialCommand::IsItIn => seq![command_code(FirmwareCommandType::IsItIn)],
        SerialCommand::PullRack => seq![command_code(FirmwareCommandType::PullRack)],
        SerialCommand::IsItOut => seq![command_code(FirmwareCommandType::IsItOut)],
        SerialCommand::GiveMePosition(_) => seq![command_code(FirmwareCommandType::GiveMePosition)],
        SerialCommand::BeerMe => seq![command_code(FirmwareCommandType::BeerMe)],
    }
}

impl GiveMePosition {
    pub fn new() -> (r: Self)
        ensures
            r == (GiveMePosition {}),
    {
        Self {}
    }
}

impl SetSpeeds {
    /// Speeds from the four wheel orders.
    pub fn new(
        front_right_motor_order: EngineOrder,
        front_left_motor_order: EngineOrder,
        back_left_motor_order: EngineOrder,
        back_right_motor_order: EngineOrder,
    ) -> (r: Self)
        ensures
            r.front_right_motor == order_byte(front_right_motor_order),
            r.front_left_motor == order_byte(front_left_motor_order),
            r.back_left_motor == order_byte(back_left_motor_order),
            r.back_right_motor == order_byte(back_right_motor_order),
    {
        Self {
            front_right_motor: front_right_motor_order.to_byte(),
            front_left_motor: front_left_motor_order.to_byte(),
            back_left_motor: back_left_motor_order.to_byte(),
            back_right_motor: back_right_motor_order.to_byte(),
        }
    }

    /// Speeds given directly as bytes.
    pub fn new_tzaran(front_right_motor: u8, front_left_motor: u8, back_left_motor: u8, back_right_motor: u8) -> (r: Self)
        ensures
            r == (SetSpeeds { front_right_motor, front_left_motor, back_left_motor, back_right_motor }),
    {
        Self { front_right_motor, front_left_motor, back_left_motor, back_right_motor }
    }
}

impl SetPosition {
    pub fn new(x_coordinate: i32, y_coordinate: i32, theta: u16) -> (r: Self)
        ensures
            r == (SetPosition { x_coordinate, y_coordinate, theta }),
    {
        Self { x_coordinate, y_coordinate, theta }
    }
}

/// Appends the four bytes of `v`, least significant first.
fn push_u32_le(bytes: &mut Vec<u8>, v: u32)
    ensures
        final(bytes)@ == old(bytes)@ + le_bytes_u32(v),
{
    bytes.push((v % 256) as u8);
    bytes.push(((v / 256) % 256) as u8);
    bytes.push(((v / 65536) % 256) as u8);
    bytes.push((v / 16777216) as u8);
    assert(bytes@ =~= old(bytes)@ + le_bytes_u32(v));
}

impl SerialCommand {
    /// The command's bytes on the wire.
    pub fn serialize(&self) -> (r: Vec<u8>)
        ensures
            r@ == command_bytes(*self),
    {
        let mut bytes: Vec<u8> = Vec::new();
        match self {
            SerialCommand::SetSpeeds(data) => {
                bytes.push(FirmwareCommandType::SetSpeed.code());
                bytes.push(data.front_right_motor);
                bytes.push(data.front_left_motor);
                bytes.push(data.back_left_motor);
                bytes.push(data.back_right_motor);
            },
            SerialCommand::SetPosition(data) => {
                bytes.push(FirmwareCommandType::SetPosition.code());
                push_u32_le(&mut bytes, data.x_coordinate as u32);
                push_u32_le(&mut bytes, data.y_coordinate as u32);
                bytes.push((data.theta % 256) as u8);
                bytes.push((data.theta / 256) as u8);
            },
            SerialCommand::OnLED => bytes.push(FirmwareCommandType::OnLED.code()),
            SerialCommand::OffLED => bytes.push(FirmwareCommandType::OffLED.code()),
            SerialCommand::BtnPressed => bytes.push(FirmwareCommandType::BtnPressed.code()),
            SerialCommand::ReachedLane => bytes.push(FirmwareCommandType::ReachedLane.code()),
            SerialCommand::PushRack => bytes.push(FirmwareCommandType::PushRack.code()),
            SerialCommand::IsItIn => bytes.push(FirmwareCommandType::IsItIn.code()),
            SerialCommand::PullRack => bytes.push(FirmwareCommandType::PullRack.code()),
            SerialCommand::IsItOut => bytes.push(FirmwareCommandType::IsItOut.code()),
            SerialCommand::GiveMePosition(_) => bytes.push(FirmwareCommandType::GiveMePosition.code()),
            SerialCommand::BeerMe => bytes.push(FirmwareCommandType::BeerMe.code()),
        }
        assert(bytes@ =~= command_bytes(*self));
        bytes
    }
}

impl Default for GiveMePosition {
    fn default() -> (r: Self)
        ensures
            r == (GiveMePosition {}),
    {
        Self::new()
    }
}

} // verus!
