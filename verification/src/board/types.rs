//! Node identification and the sensor data the nodes exchange.

use vstd::prelude::*;

verus! {

/// Position where a sensor node is installed on the car.
#[derive(Debug, Clone, Copy, PartialEq, Eq, Structural, Hash)]
pub enum CarPosition {
    FrontLeft,
    FrontCenter,
    FrontRight,
    Left,
    Center,
    Right,
    RearLeft,
    RearCenter,
    RearRight,
    Roof,
    /// Custom or unassigned position.
    Custom,
}

/// The wire code of a position.
pub open spec fn position_code(p: CarPosition) -> u8 {
    match p {
        CarPosition::FrontLeft => 0,
        CarPosition::FrontCenter => 1,
        CarPosition::FrontRight => 2,
        CarPosition::Left => 3,
        CarPosition::Center => 4,
        CarPosition::Right => 5,
        CarPosition::RearLeft => 6,
        CarPosition::RearCenter => 7,
        CarPosition::RearRight => 8,
        CarPosition::Roof => 9,
        CarPosition::Custom => 255,
    }
}

/// The position a wire code stands for; codes without a position read as `Custom`.
pub open spec fn position_of_code(v: u8) -> CarPosition {
    if v == 0 {
        CarPosition::FrontLeft
    } else if v == 1 {
        CarPosition::FrontCenter
    } else if v == 2 {
        CarPosition::FrontRight
    } else if v == 3 {
        CarPosition::Left
    } else if v == 4 {
        CarPosition::Center
    } else if v == 5 {
        CarPosition::Right
    } else if v == 6 {
        CarPosition::RearLeft
    } else if v == 7 {
        CarPosition::RearCenter
    } else if v == 8 {
        CarPosition::RearRight
    } else if v == 9 {
        CarPosition::Roof
    } else {
        CarPosition::Custom
    }
}

/// The human-readable name of a position.
pub open spec fn position_name(p: CarPosition) -> Seq<char> {
    match p {
        CarPosition::FrontLeft => "FrontLeft"@,
        CarPosition::FrontCenter => "FrontCenter"@,
        CarPosition::FrontRight => "FrontRight"@,
        CarPosition::Left => "Left"@,
        CarPosition::Center => "Center"@,
        CarPosition::Right => "Right"@,
        CarPosition::RearLeft => "RearLeft"@,
        CarPosition::RearCenter => "RearCenter"@,
        CarPosition::RearRight => "RearRight"@,
        CarPosition::Roof => "Roof"@,
        CarPosition::Custom => "Custom"@,
    }
}

impl CarPosition {
    /// Converts a wire code to a position; unknown codes give `Custom`.
    pub fn from_u8(value: u8) -> (p: CarPosition)
        ensures
            p == position_of_code(value),
    {
        match value {
            0 => CarPosition::FrontLeft,
            1 => CarPosition::FrontCenter,
            2 => CarPosition::FrontRight,
            3 => CarPosition::Left,
            4 => CarPosition::Center,
            5 => CarPosition::Right,
            6 => CarPosition::RearLeft,
            7 => CarPosition::RearCenter,
            8 => CarPosition::RearRight,
            9 => CarPosition::Roof,
            _ => CarPosition::Custom,
        }
    }

    /// The wire code of this position.
    pub fn to_u8(self) -> (v: u8)
        ensures
            v == position_code(self),
    {
        match self {
            CarPosition::FrontLeft => 0,
            CarPosition::FrontCenter => 1,
            CarPosition::FrontRight => 2,
            CarPosition::Left => 3,
            CarPosition::Center => 4,
            CarPosition::Right => 5,
            CarPosition::RearLeft => 6,
            CarPosition::RearCenter => 7,
            CarPosition::RearRight => 8,
            CarPosition::Roof => 9,
            CarPosition::Custom => 255,
        }
    }

    /// The human-readable name of this position.
    pub fn as_str(&self) -> (s: &'static str)
        ensures
            s@ == position_name(*self),
    {
        match self {
            CarPosition::FrontLeft => {
                proof { reveal_strlit("FrontLeft"); }
                "FrontLeft"
            },
            CarPosition::FrontCenter => {
                proof { reveal_strlit("FrontCenter"); }
                "FrontCenter"
            },
            CarPosition::FrontRight => {
                proof { reveal_strlit("FrontRight"); }
                "FrontRight"
            },
            CarPosition::Left => {
                proof { reveal_strlit("Left"); }
                "Left"
            },
            CarPosition::Center => {
                proof { reveal_strlit("Center"); }
                "Center"
            },
            CarPosition::Right => {
                proof { reveal_strlit("Right"); }
                "Right"
            },
            CarPosition::RearLeft => {
                proof { reveal_strlit("RearLeft"); }
                "RearLeft"
            },
            CarPosition::RearCenter => {
                proof { reveal_strlit("RearCenter"); }
                "RearCenter"
            },
            CarPosition::RearRight => {
                proof { reveal_strlit("RearRight"); }
                "RearRight"
            },
            CarPosition::Roof => {
                proof { reveal_strlit("Roof"); }
                "Roof"
            },
            CarPosition::Custom => {
                proof { reveal_strlit("Custom"); }
                "Custom"
            },
        }
    }
}

/// Where a position lies on the car's three-by-three grid, as (row, column):
/// rows front, middle, rear; columns left, center, right. The roof and a
/// custom position are not on the grid.
pub open spec fn grid_place(p: CarPosition) -> Option<(int, int)> {
    match p {
        CarPosition::FrontLeft => Some((0, 0)),
        CarPosition::FrontCenter => Some((0, 1)),
        CarPosition::FrontRight => Some((0, 2)),
        CarPosition::Left => Some((1, 0)),
        CarPosition::Center => Some((1, 1)),
        CarPosition::Right => Some((1, 2)),
        CarPosition::RearLeft => Some((2, 0)),
        CarPosition::RearCenter => Some((2, 1)),
        CarPosition::RearRight => Some((2, 2)),
        CarPosition::Roof => None,
        CarPosition::Custom => None,
    }
}

/// Wire codes number the grid row by row from the front left: a position in
/// row `r`, column `c` has code `3 r + c`; the roof follows the grid with 9,
/// and a custom position is 255.
pub proof fn law_position_codes_number_the_grid(p: CarPosition)
    ensures
        grid_place(p) matches Some((r, c)) ==> position_code(p) == 3 * r + c,
        p == CarPosition::Roof ==> position_code(p) == 9,
        p == CarPosition::Custom ==> position_code(p) == 255,
{
}

/// Every position survives a round trip through its wire code.
pub proof fn lemma_position_code_round_trip(p: CarPosition)
    ensures
        position_of_code(position_code(p)) == p,
{
}

/// A wire code survives a round trip through a position exactly when it names one
/// (0 to 9, or 255 for `Custom`); any other code comes back as 255.
pub proof fn lemma_code_position_round_trip(v: u8)
    ensures
        (v <= 9 || v == 255) ==> position_code(position_of_code(v)) == v,
        !(v <= 9 || v == 255) ==> position_code(position_of_code(v)) == 255,
{
}

/// Full node identifier combining car position and instance number.
#[derive(Debug, Clone, Copy, PartialEq, Eq, Structural)]
pub struct NodeId {
    /// Position on the car where the sensor is installed.
    pub position: CarPosition,
    /// Instance number for several nodes at the same position.
    pub instance: u8,
}

/// The two bytes a node identifier is sent as: `[position, instance]`.
pub open spec fn node_id_bytes(id: NodeId) -> Seq<u8> {
    seq![position_code(id.position), id.instance]
}

/// The node identifier two bytes stand for.
pub open spec fn node_id_of_bytes(b0: u8, b1: u8) -> NodeId {
    NodeId { position: position_of_code(b0), instance: b1 }
}

impl NodeId {
    /// Creates a node identifier.
    pub fn new(position: CarPosition, instance: u8) -> (id: NodeId)
        ensures
            id.position == position,
            id.instance == instance,
    {
        NodeId { position, instance }
    }

    /// Serializes to two bytes: `[position, instance]`.
    pub fn to_bytes(&self) -> (b: [u8; 2])
        ensures
            b@ == node_id_bytes(*self),
    {
        let b = [self.position.to_u8(), self.instance];
        assert(b@ =~= node_id_bytes(*self));
        b
    }

    /// Deserializes from two bytes.
    pub fn from_bytes(bytes: [u8; 2]) -> (id: NodeId)
        ensures
            id == node_id_of_bytes(bytes@[0], bytes@[1]),
    {
        NodeId { position: CarPosition::from_u8(bytes[0]), instance: bytes[1] }
    }

    /// The identifier of this build: its configured position, instance 0.
    pub open spec fn default_spec() -> NodeId {
        NodeId { position: CarPosition::Custom, instance: 0 }
    }

    /// The identifier of this build: its configured position, instance 0.
    pub fn default() -> (id: NodeId)
        ensures
            id == Self::default_spec(),
    {
        NodeId { position: configured_position(), instance: 0 }
    }
}

/// Decoding the bytes of an identifier gives the identifier back.
pub proof fn lemma_node_id_round_trip(id: NodeId)
    ensures
        node_id_of_bytes(node_id_bytes(id)[0], node_id_bytes(id)[1]) == id,
{
}

/// The car position this build is configured for. A build selects no position,
/// so it is `Custom`.
pub fn configured_position() -> (p: CarPosition)
    ensures
        p == CarPosition::Custom,
{
    CarPosition::Custom
}

/// GPS UTC timestamp.
#[derive(Debug, Clone, Copy, PartialEq, Eq, Structural)]
pub struct GpsTime {
    pub year: u16,
    pub month: u8,
    pub day: u8,
    pub hours: u8,
    pub minutes: u8,
    pub seconds: u8,
    pub millis: u16,
}

impl GpsTime {
    /// The all-zero time sent when no time has been received yet.
    pub fn zero() -> (t: GpsTime)
        ensures
            t == (GpsTime { year: 0, month: 0, day: 0, hours: 0, minutes: 0, seconds: 0, millis: 0 }),
    {
        GpsTime { year: 0, month: 0, day: 0, hours: 0, minutes: 0, seconds: 0, millis: 0 }
    }
}

/// IMU sample. Each reading is an IEEE-754 single (accelerations in g, rates in
/// degrees per second), held as its bit pattern: the library only moves these
/// values, and the wire carries exactly these bits.
#[derive(Debug, Clone, Copy, PartialEq, Eq, Structural)]
pub struct ImuData {
    pub accel_x_bits: u32,
    pub accel_y_bits: u32,
    pub accel_z_bits: u32,
    pub gyro_x_bits: u32,
    pub gyro_y_bits: u32,
    pub gyro_z_bits: u32,
}

/// GPS fix. Latitude and longitude are IEEE-754 doubles, altitude and speed
/// (knots) singles, each held as its bit pattern.
#[derive(Debug, Clone, Copy, PartialEq, Eq, Structural)]
pub struct GpsData {
    pub lat_bits: u64,
    pub lon_bits: u64,
    pub alt_bits: u32,
    pub speed_kts_bits: u32,
    pub heading: u16,
    pub utc_time: GpsTime,
}

} // verus!
