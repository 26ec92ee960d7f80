use vstd::prelude::*;

verus! {

/// Identifier of the desk's control service.
pub const CONTROL_SERVICE_ID: u128 = 0x99fa0001_338a_1024_8a49_009c0215f78a;

/// Identifier of the endpoint that reports the current height (in wire units).
pub const HEIGHT_ENDPOINT_ID: u128 = 0x99fa0021_338a_1024_8a49_009c0215f78a;

/// Identifier of the endpoint that accepts movement commands.
pub const CONTROL_ENDPOINT_ID: u128 = 0x99fa0002_338a_1024_8a49_009c0215f78a;

/// Identifier of the position reference endpoint.
pub const REFERENCE_INPUT_ID: u128 = 0x99fa0031_338a_1024_8a49_009c0215f78a;

/// Opcode that stops all movement.
pub const STOP_OPCODE: u8 = 0xFF;

/// Opcode that moves the desk up.
pub const UP_OPCODE: u8 = 0x47;

/// Opcode that moves the desk down.
pub const DOWN_OPCODE: u8 = 0x46;

/// Opcode that moves the desk to an absolute position.
pub const MOVE_TO_OPCODE: u8 = 0x05;

/// Movement commands understood by the desk.
#[derive(Debug, Clone, Copy, PartialEq, Eq, Structural)]
pub enum MovementCommand {
    /// Stop all movement.
    Stop,
    /// Move the desk up.
    Up,
    /// Move the desk down.
    Down,
    /// Move to a specific height, in wire units (tenths of a millimetre).
    MoveToHeight(u16),
}

/// The 16-bit value whose little-endian bytes are `lo`, `hi`.
pub open spec fn le_u16(lo: u8, hi: u8) -> nat {
    lo as nat + 256 * (hi as nat)
}

/// The bytes sent on the control endpoint for a command.
pub open spec fn command_bytes(c: MovementCommand) -> Seq<u8> {
    match c {
        MovementCommand::Stop => seq![STOP_OPCODE, 0u8],
        MovementCommand::Up => seq![UP_OPCODE, 0u8],
        MovementCommand::Down => seq![DOWN_OPCODE, 0u8],
        MovementCommand::MoveToHeight(h) => seq![MOVE_TO_OPCODE, (h % 256) as u8, (h / 256) as u8],
    }
}

/// The height carried by a reading, if it holds at least two bytes.
pub open spec fn height_of_reading(data: Seq<u8>) -> Option<u16> {
    if data.len() >= 2 {
        Some(le_u16(data[0], data[1]) as u16)
    } else {
        None
    }
}

impl MovementCommand {
    /// The bytes that carry this command to the desk.
    pub fn to_bytes(&self) -> (bytes: Vec<u8>)
        ensures
            bytes@ == command_bytes(*self),
    {
        match self {
            MovementCommand::Stop => vec![STOP_OPCODE, 0x00],
            MovementCommand::Up => vec![UP_OPCODE, 0x00],
            MovementCommand::Down => vec![DOWN_OPCODE, 0x00],
            MovementCommand::MoveToHeight(height) => {
                let lo = (*height % 256) as u8;
                let hi = (*height / 256) as u8;
                vec![MOVE_TO_OPCODE, lo, hi]
            },
        }
    }
}

/// Read a height (in wire units) from the height endpoint's payload: the first
/// two bytes, little-endian. Bytes after the first two are ignored.
pub fn parse_height(data: &[u8]) -> (height: Option<u16>)
    ensures
        height == height_of_reading(data@),
        height is Some <==> data@.len() >= 2,
{
    if data.len() >= 2 {
        let lo = data[0];
        let hi = data[1];
        Some(lo as u16 + 256 * (hi as u16))
    } else {
        None
    }
}

/// Largest height in millimetres whose wire value still fits in 16 bits.
pub const MAX_HEIGHT_MM: u16 = 6553;

/// Wire units (tenths of a millimetre) for a height in millimetres.
pub open spec fn units_of_mm(mm: nat) -> nat {
    mm * 10
}

/// Millimetres for a height in wire units, truncating the sub-millimetre rest.
pub open spec fn mm_of_units(units: nat) -> nat {
    units / 10
}

/// Convert millimetres to the desk's wire units (tenths of a millimetre).
pub fn mm_to_desk_units(mm: u16) -> (units: u16)
    requires
        mm <= MAX_HEIGHT_MM,
    ensures
        units as nat == units_of_mm(mm as nat),
{
    mm * 10
}

/// Convert the desk's wire units (tenths of a millimetre) to whole millimetres.
pub fn desk_units_to_mm(units: u16) -> (mm: u16)
    ensures
        mm as nat == mm_of_units(units as nat),
{
    units / 10
}

/// Converting a height in millimetres to wire units and back gives the same
/// height, for every height whose wire value fits in 16 bits.
pub proof fn lemma_mm_round_trip(mm: u16)
    requires
        mm <= MAX_HEIGHT_MM,
    ensures
        mm_of_units(units_of_mm(mm as nat)) == mm as nat,
        units_of_mm(mm as nat) <= u16::MAX,
{
}

/// A reading's height depends on its first two bytes alone: bytes appended
/// after them do not change it.
pub proof fn lemma_trailing_bytes_ignored(data: Seq<u8>, rest: Seq<u8>)
    requires
        data.len() >= 2,
    ensures
        height_of_reading(data + rest) == height_of_reading(data),
{
    assert((data + rest)[0] == data[0]);
    assert((data + rest)[1] == data[1]);
}

} // verus!
