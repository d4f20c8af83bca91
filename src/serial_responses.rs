use vstd::prelude::*;
use crate::pose::{Position, RobotError, MAX_HEADING};

verus! {

/// A pose as the drive controller reports it.
#[derive(Debug, Clone, Copy, PartialEq, Eq, Structural)]
pub struct HavePositionResponse {
    pub x: u32,
    pub y: u32,
    pub theta: u16,
}

impl HavePositionResponse {
    pub fn new(x: u32, y: u32, theta: u16) -> (r: Self)
        ensures
            r == (HavePositionResponse { x, y, theta }),
    {
        Self { x, y, theta }
    }
}

/// A decoded answer from a microcontroller.
#[derive(Debug, Clone, Copy, PartialEq, Eq, Structural)]
pub enum SerialResponse {
    Yes,
    No,
    HavePosition(HavePositionResponse),
}

/// The first byte of each answer on the wire.
#[derive(Debug, Clone, Copy, PartialEq, Eq, Structural)]
pub enum FirmwareResponseType {
    Yes,
    No,
    HavePosition,
}

/// The kinds of answer, without their data.
#[derive(Debug, Clone, Copy, PartialEq, Eq, Structural)]
pub enum FirmwareResponse {
    YesResponse,
    NoResponse,
    PositionResponse,
}

/// Why an answer could not be decoded.
#[derive(Debug, Clone, Copy, PartialEq, Eq, Structural)]
pub enum ResponseError {
    /// No bytes at all.
    Empty,
    /// A position answer shorter than its eleven bytes.
    Truncated,
    /// The first byte is no known answer code.
    UnknownCode(u8),
}

/// The byte that opens an answer of the given type.
pub open spec fn response_code(t: FirmwareResponseType) -> u8 {
    match t {
        FirmwareResponseType::Yes => 0x31,
        FirmwareResponseType::No => 0x32,
        FirmwareResponseType::HavePosition => 0x33,
    }
}

/// The 32-bit value of four bytes, least significant first, starting at `i`.
pub open spec fn le_u32_at(b: Seq<u8>, i: int) -> int {
    b[i] + 256 * b[i + 1] + 65536 * b[i + 2] + 16777216 * b[i + 3]
}

/// The 16-bit value of two bytes, least significant first, starting at `i`.
pub open spec fn le_u16_at(b: Seq<u8>, i: int) -> int {
    b[i] + 256 * b[i + 1]
}

/// What a sequence of bytes decodes to.
pub open spec fn decode_response(b: Seq<u8>) -> Result<SerialResponse, ResponseError> {
    if b.len() == 0 {
        Err(ResponseError::Empty)
    } else if b[0] == response_code(FirmwareResponseType::Yes) {
        Ok(SerialResponse::Yes)
    } else if b[0] == response_code(FirmwareResponseType::No) {
        Ok(SerialResponse::No)
    } else if b[0] == response_code(FirmwareResponseType::HavePosition) {
        if b.len() < 11 {
            Err(ResponseError::Truncated)
        } else {
            Ok(SerialResponse::HavePosition(HavePositionResponse {
                x: le_u32_at(b, 1) as u32,
                y: le_u32_at(b, 5) as u32,
                theta: le_u16_at(b, 9) as u16,
            }))
        }
    } else {
        Err(ResponseError::UnknownCode(b[0]))
    }
}

/// Reads four bytes, least significant first.
fn read_u32_le(b: &[u8], i: usize) -> (r: u32)
    requires
        i + 4 <= b@.len(),
    ensures
        r == le_u32_at(b@, i as int),
{
    b[i] as u32 + 256 * (b[i + 1] as u32) + 65536 * (b[i + 2] as u32) + 16777216 * (b[i + 3] as u32)
}

impl SerialResponse {
    /// Decodes an answer: a yes, a no, or a position (x and y as four bytes each,
    /// the heading as two, least significant first).
    pub fn try_from_bytes(firmware_response: &[u8]) -> (r: Result<SerialResponse, ResponseError>)
        ensures
            r == decode_response(firmware_response@),
    {
        if firmware_response.len() == 0 {
            return Err(ResponseError::Empty);
        }
        let code = firmware_response[0];
        if code == 0x31 {
            Ok(SerialResponse::Yes)
        } else if code == 0x32 {
            Ok(SerialResponse::No)
        } else if code == 0x33 {
            if firmware_response.len() < 11 {
                return Err(ResponseError::Truncated);
            }
            let x = read_u32_le(firmware_response, 1);
            let y = read_u32_le(firmware_response, 5);
            let theta = firmware_response[9] as u16 + 256 * (firmware_response[10] as u16);
            Ok(SerialResponse::HavePosition(HavePositionResponse::new(x, y, theta)))
        } else {
            Err(ResponseError::UnknownCode(code))
        }
    }
}


/// The pose a position answer carries: the coordinates are the two's-complement
/// readings of the 32-bit fields.
pub open spec fn reported_position(h: HavePositionResponse) -> Position {
    Position { position_name: None, x_coordinate: h.x as i32, y_coordinate: h.y as i32, theta: h.theta }
}

impl SerialResponse {
    /// The robot's pose from the drive controller's answer. A yes or no carries no
    /// pose; a heading above 360 degrees is refused.
    pub fn to_position(&self) -> (r: Result<Position, RobotError>)
        ensures
            match *self {
                SerialResponse::HavePosition(h) => if h.theta <= MAX_HEADING {
                    r == Ok::<Position, RobotError>(reported_position(h))
                } else {
                    r == Err::<Position, RobotError>(RobotError::InvalidPose)
                },
                _ => r == Err::<Position, RobotError>(RobotError::PositionNotFound),
            },
    {
        match self {
            SerialResponse::HavePosition(h) => Position::new(None, h.x as i32, h.y as i32, h.theta),
            _ => Err(RobotError::PositionNotFound),
        }
    }
}

} // verus!
