//! The radio protocol shared by the controller and the platform.
//!
//! Every packet starts with a [`MessageType`] byte. A move packet is six bytes,
//! `[Move, x_high, x_low, y_high, y_low, mode]`, with `x` and `y` in big-endian
//! two's complement. Five-byte packets from before the mode byte existed are still
//! accepted; they carry the default drive mode.
use vstd::prelude::*;

verus! {

/// Tag byte of a ping packet.
pub const PING_BYTE: u8 = 0x01;

/// Tag byte of a pong packet.
pub const PONG_BYTE: u8 = 0x02;

/// Tag byte of a move packet.
pub const MOVE_BYTE: u8 = 0x03;

/// Length of a move packet as it is sent.
pub const MOVE_PACKET_LEN: usize = 6;

/// Length of a move packet without the mode byte, which is still accepted.
pub const LEGACY_MOVE_PACKET_LEN: usize = 5;

/// Kind of a radio message, carried in the first byte of every packet.
#[derive(Clone, Copy, Debug, PartialEq, Eq, Structural)]
pub enum MessageType {
    Ping,
    Pong,
    Move,
}

impl MessageType {
    /// The byte that stands for this message type on the wire.
    pub open spec fn wire_byte(self) -> u8 {
        match self {
            MessageType::Ping => PING_BYTE,
            MessageType::Pong => PONG_BYTE,
            MessageType::Move => MOVE_BYTE,
        }
    }

    /// The message type that a byte stands for, if any.
    pub open spec fn parse_byte(b: u8) -> Option<MessageType> {
        if b == PING_BYTE {
            Some(MessageType::Ping)
        } else if b == PONG_BYTE {
            Some(MessageType::Pong)
        } else if b == MOVE_BYTE {
            Some(MessageType::Move)
        } else {
            None
        }
    }

    /// Reads a message type from its byte; `None` for any other byte.
    pub fn from_byte(b: u8) -> (r: Option<Self>)
        ensures
            r == MessageType::parse_byte(b),
    {
        match b {
            0x01 => Some(MessageType::Ping),
            0x02 => Some(MessageType::Pong),
            0x03 => Some(MessageType::Move),
            _ => None,
        }
    }

    /// The byte that stands for this message type.
    pub fn to_byte(self) -> (b: u8)
        ensures
            b == self.wire_byte(),
    {
        match self {
            MessageType::Ping => 0x01,
            MessageType::Pong => 0x02,
            MessageType::Move => 0x03,
        }
    }
}

/// How the sideways stick axis moves the platform.
#[derive(Clone, Copy, Debug, PartialEq, Eq, Structural)]
pub enum DriveMode {
    /// Left/right slides the platform sideways without turning.
    Strafe,
    /// Left/right spins the platform in place.
    Rotate,
}

impl DriveMode {
    /// The byte that stands for this mode in a move packet.
    pub open spec fn wire_byte(self) -> u8 {
        match self {
            DriveMode::Strafe => 0,
            DriveMode::Rotate => 1,
        }
    }

    /// The mode that a byte stands for, if any.
    pub open spec fn parse_byte(b: u8) -> Option<DriveMode> {
        if b == 0 {
            Some(DriveMode::Strafe)
        } else if b == 1 {
            Some(DriveMode::Rotate)
        } else {
            None
        }
    }

    /// The other mode.
    pub open spec fn other(self) -> DriveMode {
        match self {
            DriveMode::Strafe => DriveMode::Rotate,
            DriveMode::Rotate => DriveMode::Strafe,
        }
    }

    /// Reads a mode from its byte; `None` for any other byte.
    pub fn from_byte(b: u8) -> (r: Option<Self>)
        ensures
            r == DriveMode::parse_byte(b),
    {
        match b {
            0 => Some(DriveMode::Strafe),
            1 => Some(DriveMode::Rotate),
            _ => None,
        }
    }

    /// The byte that stands for this mode.
    pub fn to_byte(self) -> (b: u8)
        ensures
            b == self.wire_byte(),
    {
        match self {
            DriveMode::Strafe => 0,
            DriveMode::Rotate => 1,
        }
    }

    /// The mode that a press of the joystick button switches to.
    pub fn toggled(self) -> (r: Self)
        ensures
            r == self.other(),
    {
        match self {
            DriveMode::Strafe => DriveMode::Rotate,
            DriveMode::Rotate => DriveMode::Strafe,
        }
    }
}

impl Default for DriveMode {
    /// Strafing is the mode a controller starts in and the mode of a packet without one.
    fn default() -> (r: Self)
        ensures
            r == DriveMode::Strafe,
    {
        DriveMode::Strafe
    }
}

/// A movement command: stick position and drive mode.
#[derive(Clone, Copy, Debug, PartialEq, Eq, Structural)]
pub struct MoveCommand {
    /// -100 (left) to 100 (right)
    pub x: i16,
    /// -100 (back) to 100 (forward)
    pub y: i16,
    pub mode: DriveMode,
}

impl Default for MoveCommand {
    /// The stick at rest, strafing.
    fn default() -> (r: Self)
        ensures
            r == (MoveCommand { x: 0, y: 0, mode: DriveMode::Strafe }),
    {
        MoveCommand { x: 0, y: 0, mode: DriveMode::Strafe }
    }
}

/// `v` read as an unsigned 16-bit value (two's complement).
pub open spec fn u16_bits(v: i16) -> int {
    if v < 0 {
        v + 65536
    } else {
        v as int
    }
}

/// High byte of `v` in big-endian two's complement.
pub open spec fn be_high(v: i16) -> u8 {
    (u16_bits(v) / 256) as u8
}

/// Low byte of `v` in big-endian two's complement.
pub open spec fn be_low(v: i16) -> u8 {
    (u16_bits(v) % 256) as u8
}

/// The signed 16-bit value whose big-endian two's complement bytes are `hi`, `lo`.
pub open spec fn i16_from_be(hi: u8, lo: u8) -> i16 {
    let u = hi as int * 256 + lo as int;
    if u >= 32768 {
        (u - 65536) as i16
    } else {
        u as i16
    }
}

impl MoveCommand {
    /// The packet that carries this command.
    pub open spec fn encoding(self) -> Seq<u8> {
        seq![
            MOVE_BYTE,
            be_high(self.x),
            be_low(self.x),
            be_high(self.y),
            be_low(self.y),
            self.mode.wire_byte(),
        ]
    }

    /// The command that a packet carries, if it is a move packet of at least five bytes.
    /// A sixth byte gives the mode; where it is missing or stands for no mode, the mode
    /// is the default one. Bytes after the sixth are ignored.
    pub open spec fn decode(data: Seq<u8>) -> Option<MoveCommand> {
        if data.len() >= LEGACY_MOVE_PACKET_LEN && data[0] == MOVE_BYTE {
            Some(
                MoveCommand {
                    x: i16_from_be(data[1], data[2]),
                    y: i16_from_be(data[3], data[4]),
                    mode: if data.len() >= MOVE_PACKET_LEN {
                        match DriveMode::parse_byte(data[5]) {
                            Some(m) => m,
                            None => DriveMode::Strafe,
                        }
                    } else {
                        DriveMode::Strafe
                    },
                },
            )
        } else {
            None
        }
    }
}

fn high_byte(v: i16) -> (b: u8)
    ensures
        b == be_high(v),
{
    let b = (v >> 8) as u8;
    assert(((v >> 8) as u8) as int == ((v as int + 65536) % 65536) / 256) by (bit_vector);
    b
}

fn low_byte(v: i16) -> (b: u8)
    ensures
        b == be_low(v),
{
    let b = v as u8;
    assert((v as u8) as int == (v as int + 65536) % 256) by (bit_vector);
    b
}

fn i16_from_bytes(hi: u8, lo: u8) -> (v: i16)
    ensures
        v == i16_from_be(hi, lo),
{
    let v = ((hi as i16) << 8) | (lo as i16);
    assert((((hi as i16) << 8) | (lo as i16)) as int == (if hi as int * 256 + lo as int >= 32768 {
        hi as int * 256 + lo as int - 65536
    } else {
        hi as int * 256 + lo as int
    })) by (bit_vector);
    v
}

impl MoveCommand {
    /// The six-byte packet that carries this command.
    pub fn to_bytes(&self) -> (r: [u8; 6])
        ensures
            r@ == self.encoding(),
    {
        let r = [
            MessageType::Move.to_byte(),
            high_byte(self.x),
            low_byte(self.x),
            high_byte(self.y),
            low_byte(self.y),
            self.mode.to_byte(),
        ];
        assert(r@ =~= self.encoding());
        r
    }

    /// Reads a move packet: `Some` exactly when `data` has at least five bytes and
    /// starts with the move tag.
    pub fn from_bytes(data: &[u8]) -> (r: Option<Self>)
        ensures
            r == MoveCommand::decode(data@),
    {
        if data.len() >= LEGACY_MOVE_PACKET_LEN && data[0] == MessageType::Move.to_byte() {
            let mode = if data.len() >= MOVE_PACKET_LEN {
                match DriveMode::from_byte(data[5]) {
                    Some(m) => m,
                    None => DriveMode::default(),
                }
            } else {
                DriveMode::default()
            };
            Some(
                MoveCommand {
                    x: i16_from_bytes(data[1], data[2]),
                    y: i16_from_bytes(data[3], data[4]),
                    mode,
                },
            )
        } else {
            None
        }
    }
}

/// The message type of a packet: that of its first byte, `None` for an empty packet
/// or an unknown first byte.
pub open spec fn packet_kind(data: Seq<u8>) -> Option<MessageType> {
    if data.len() == 0 {
        None
    } else {
        MessageType::parse_byte(data[0])
    }
}

/// Reads the message type of a packet from its first byte.
pub fn message_kind(data: &[u8]) -> (r: Option<MessageType>)
    ensures
        r == packet_kind(data@),
{
    if data.len() == 0 {
        None
    } else {
        MessageType::from_byte(data[0])
    }
}

/// Reading a message type back from its byte gives it again, and a byte that reads as
/// a message type is that type's byte.
pub proof fn lemma_message_type_roundtrip(m: MessageType, b: u8)
    ensures
        MessageType::parse_byte(m.wire_byte()) == Some(m),
        MessageType::parse_byte(b) matches Some(k) ==> k.wire_byte() == b,
        MessageType::parse_byte(b) is Some <==> (b == PING_BYTE || b == PONG_BYTE || b == MOVE_BYTE),
{
}

/// Reading a drive mode back from its byte gives it again.
pub proof fn lemma_drive_mode_roundtrip(m: DriveMode, b: u8)
    ensures
        DriveMode::parse_byte(m.wire_byte()) == Some(m),
        DriveMode::parse_byte(b) matches Some(k) ==> k.wire_byte() == b,
{
}

/// Toggling the drive mode twice gives the mode back, and a toggle always changes it.
pub proof fn lemma_toggle_involution(m: DriveMode)
    ensures
        m.other().other() == m,
        m.other() != m,
{
}

/// The big-endian bytes of a 16-bit value read back as that value.
pub proof fn lemma_i16_be_roundtrip(v: i16)
    ensures
        i16_from_be(be_high(v), be_low(v)) == v,
{
}

/// Two byte pairs that read as the same value are the same pair.
pub proof fn lemma_i16_be_injective(h1: u8, l1: u8, h2: u8, l2: u8)
    ensures
        i16_from_be(h1, l1) == i16_from_be(h2, l2) ==> h1 == h2 && l1 == l2,
{
}

/// Decoding the encoding of a command gives the command back.
pub proof fn lemma_move_roundtrip(c: MoveCommand)
    ensures
        MoveCommand::decode(c.encoding()) == Some(c),
        c.encoding().len() == MOVE_PACKET_LEN,
        packet_kind(c.encoding()) == Some(MessageType::Move),
{
    lemma_i16_be_roundtrip(c.x);
    lemma_i16_be_roundtrip(c.y);
}

/// A six-byte prefix that decodes, with a mode byte that stands for a mode, is exactly
/// the encoding of what it decodes to: each command has one packet.
pub proof fn lemma_move_decode_encode(data: Seq<u8>)
    requires
        data.len() >= MOVE_PACKET_LEN,
        DriveMode::parse_byte(data[5]) is Some,
    ensures
        MoveCommand::decode(data) matches Some(c) ==> c.encoding() == data.take(
            MOVE_PACKET_LEN as int,
        ),
{
    if let Some(c) = MoveCommand::decode(data) {
        lemma_i16_be_roundtrip(c.x);
        lemma_i16_be_roundtrip(c.y);
        lemma_i16_be_injective(be_high(c.x), be_low(c.x), data[1], data[2]);
        lemma_i16_be_injective(be_high(c.y), be_low(c.y), data[3], data[4]);
        assert(c.encoding() =~= data.take(MOVE_PACKET_LEN as int));
    }
}

/// A packet cut before the mode byte decodes to the same stick position in the
/// default mode.
pub proof fn lemma_legacy_packet(c: MoveCommand)
    ensures
        MoveCommand::decode(c.encoding().take(LEGACY_MOVE_PACKET_LEN as int)) == Some(
            MoveCommand { x: c.x, y: c.y, mode: DriveMode::Strafe },
        ),
{
    lemma_i16_be_roundtrip(c.x);
    lemma_i16_be_roundtrip(c.y);
}

/// Bytes after a full move packet do not change what it decodes to.
pub proof fn lemma_decode_ignores_trailing(data: Seq<u8>, extra: Seq<u8>)
    requires
        data.len() >= MOVE_PACKET_LEN,
    ensures
        MoveCommand::decode(data + extra) == MoveCommand::decode(data),
{
    let d = data + extra;
    assert(d[0] == data[0] && d[1] == data[1] && d[2] == data[2] && d[3] == data[3] && d[4]
        == data[4] && d[5] == data[5]);
}

/// Layout of a move packet: the move tag, then `x` and `y` each as a big-endian 16-bit
/// two's complement number (high byte times 256 plus low byte equals the value modulo
/// 65536), then 0 for strafing or 1 for rotating.
pub proof fn lemma_encoding_layout(c: MoveCommand)
    ensures
        ({
            let e = c.encoding();
            &&& e.len() == 6
            &&& e[0] == 0x03
            &&& e[1] as int * 256 + e[2] as int == (if c.x < 0 { c.x + 65536 } else { c.x as int })
            &&& e[3] as int * 256 + e[4] as int == (if c.y < 0 { c.y + 65536 } else { c.y as int })
            &&& e[5] == (if c.mode == DriveMode::Strafe { 0u8 } else { 1u8 })
        }),
{
}

/// A packet decodes exactly when it has at least five bytes and starts with the move
/// tag; its stick axes are then the big-endian 16-bit two's complement numbers in bytes
/// 1-2 and 3-4, and its mode is rotate exactly when a sixth byte is 1.
pub proof fn lemma_decode_layout(data: Seq<u8>)
    ensures
        MoveCommand::decode(data) is Some <==> (data.len() >= 5 && data[0] == 0x03),
        MoveCommand::decode(data) matches Some(c) ==> {
            &&& c.x as int == data[1] as int * 256 + data[2] as int || c.x as int == data[1] as int
                * 256 + data[2] as int - 65536
            &&& c.y as int == data[3] as int * 256 + data[4] as int || c.y as int == data[3] as int
                * 256 + data[4] as int - 65536
            &&& (c.mode == DriveMode::Rotate <==> (data.len() >= 6 && data[5] == 1))
        },
{
}

} // verus!
