//! What the omniwheel platform does with each packet it receives.
use vstd::prelude::*;
use crate::protocol::{
    DriveMode,
    MessageType,
    MoveCommand,
    MOVE_BYTE,
    PING_BYTE,
    PONG_BYTE,
    i16_from_be,
    message_kind,
    packet_kind,
};
use crate::controller::{ControllerInput, ControllerState, Outgoing};
use crate::mixing::{
    WheelCommand,
    command_for_speed,
    mix_in_range,
    omniwheel_mix,
    speed_to_command,
    wheel_speeds,
};

verus! {

/// The platform's answer to one received packet.
#[derive(Clone, Copy, Debug, PartialEq, Eq)]
pub enum PlatformAction {
    /// Broadcast a pong so that the controller knows it is heard.
    SendPong,
    /// Drive the four motors (front left, front right, back left, back right).
    Drive {
        command: MoveCommand,
        speeds: (i8, i8, i8, i8),
        wheels: (WheelCommand, WheelCommand, WheelCommand, WheelCommand),
    },
    /// Nothing to do.
    Ignore,
}

/// Whether the platform can act on a packet: a move packet's mixing sums must fit in
/// 16 bits.
pub open spec fn platform_accepts(data: Seq<u8>) -> bool {
    MoveCommand::decode(data) matches Some(c) ==> mix_in_range(c.x, c.y)
}

/// The platform's answer to a packet: a ping gets a pong, a well-formed move packet
/// drives the wheels with the mixed speeds, anything else is ignored.
pub open spec fn platform_response(data: Seq<u8>) -> PlatformAction {
    match packet_kind(data) {
        Some(MessageType::Ping) => PlatformAction::SendPong,
        Some(MessageType::Move) => match MoveCommand::decode(data) {
            Some(c) => {
                let (fl, fr, bl, br) = wheel_speeds(c.x as int, c.y as int, c.mode);
                PlatformAction::Drive {
                    command: c,
                    speeds: (fl as i8, fr as i8, bl as i8, br as i8),
                    wheels: (
                        command_for_speed(fl),
                        command_for_speed(fr),
                        command_for_speed(bl),
                        command_for_speed(br),
                    ),
                }
            },
            None => PlatformAction::Ignore,
        },
        _ => PlatformAction::Ignore,
    }
}

/// Decides what the platform does with a received packet.
pub fn platform_action(data: &[u8]) -> (r: PlatformAction)
    requires
        platform_accepts(data@),
    ensures
        r == platform_response(data@),
{
    match message_kind(data) {
        Some(MessageType::Ping) => PlatformAction::SendPong,
        Some(MessageType::Move) => match MoveCommand::from_bytes(data) {
            Some(cmd) => {
                let (fl, fr, bl, br) = omniwheel_mix(cmd.x, cmd.y, cmd.mode);
                PlatformAction::Drive {
                    command: cmd,
                    speeds: (fl, fr, bl, br),
                    wheels: (
                        speed_to_command(fl),
                        speed_to_command(fr),
                        speed_to_command(bl),
                        speed_to_command(br),
                    ),
                }
            },
            None => PlatformAction::Ignore,
        },
        _ => PlatformAction::Ignore,
    }
}

/// Every packet of at least five bytes that starts with the move tag drives the
/// platform, six-byte and older five-byte packets alike: with the stick position held
/// in bytes 1..5 and with wheel speeds `y + x` front left and `y - x` front right where
/// those lie in -100..=100.
pub proof fn lemma_move_packets_drive(data: Seq<u8>)
    requires
        data.len() >= 5,
        data[0] == MOVE_BYTE,
        platform_accepts(data),
    ensures
        platform_response(data) matches PlatformAction::Drive { command, speeds, wheels } && {
            let x = i16_from_be(data[1], data[2]) as int;
            let y = i16_from_be(data[3], data[4]) as int;
            &&& command.x == x && command.y == y
            &&& data.len() == 5 ==> command.mode == DriveMode::Strafe
            &&& (-100 <= y + x <= 100 ==> speeds.0 == y + x)
            &&& (-100 <= y - x <= 100 ==> speeds.1 == y - x)
            &&& command.mode == DriveMode::Strafe ==> speeds.2 == speeds.1 && speeds.3 == speeds.0
            &&& command.mode == DriveMode::Rotate ==> speeds.2 == speeds.0 && speeds.3 == speeds.1
            &&& wheel_follows(wheels.0, speeds.0 as int)
            &&& wheel_follows(wheels.1, speeds.1 as int)
            &&& wheel_follows(wheels.2, speeds.2 as int)
            &&& wheel_follows(wheels.3, speeds.3 as int)
        },
{
}

/// A motor command carries its speed: it stops exactly within the deadband, and
/// otherwise runs at that signed speed.
pub open spec fn wheel_follows(w: WheelCommand, speed: int) -> bool {
    &&& (w is Stop <==> -5 <= speed <= 5)
    &&& (!(w is Stop) ==> w.signed_speed() == speed)
}

/// A packet that starts with the ping byte is answered with a pong, whatever follows;
/// a packet that is empty or starts with neither the ping nor the move byte is ignored.
pub proof fn lemma_other_packets(data: Seq<u8>)
    ensures
        data.len() > 0 && data[0] == 0x01 ==> platform_response(data) == PlatformAction::SendPong,
        (data.len() == 0 || (data[0] != 0x01 && data[0] != 0x03)) ==> platform_response(data)
            == PlatformAction::Ignore,
        data.len() < 5 && !(data.len() > 0 && data[0] == 0x01) ==> platform_response(data)
            == PlatformAction::Ignore,
{
}

/// An encoded command cut to the five bytes before the mode byte still drives the
/// platform with its stick position, in the default mode.
pub proof fn lemma_legacy_packet_drives(c: MoveCommand)
    requires
        mix_in_range(c.x, c.y),
    ensures
        platform_response(c.encoding().take(5)) matches PlatformAction::Drive { command, .. }
            && command == (MoveCommand { x: c.x, y: c.y, mode: DriveMode::Strafe }),
{
    crate::protocol::lemma_legacy_packet(c);
}

/// A packet that the controller sent for a command drives the platform with that very
/// command, and every motor command it gives has a speed the motor driver accepts.
pub proof fn lemma_platform_obeys_controller(c: MoveCommand)
    requires
        mix_in_range(c.x, c.y),
    ensures
        platform_accepts(c.encoding()),
        platform_response(c.encoding()) matches PlatformAction::Drive { command, wheels, .. } && command
            == c && wheels.0.magnitude() <= 100 && wheels.1.magnitude() <= 100
            && wheels.2.magnitude() <= 100 && wheels.3.magnitude() <= 100,
{
    crate::protocol::lemma_move_roundtrip(c);
    let (fl, fr, bl, br) = wheel_speeds(c.x as int, c.y as int, c.mode);
    crate::mixing::lemma_mix_range(c.x as int, c.y as int, c.mode);
    crate::mixing::lemma_command_valid(fl);
    crate::mixing::lemma_command_valid(fr);
    crate::mixing::lemma_command_valid(bl);
    crate::mixing::lemma_command_valid(br);
}

/// The handshake: a searching controller broadcasts pings, the platform answers a ping
/// with a pong, and the pong connects the controller.
pub proof fn lemma_handshake(s: ControllerState, i: ControllerInput)
    requires
        !s.connected,
    ensures
        s.step(i).1.send is Ping,
        platform_response(seq![PING_BYTE]) == PlatformAction::SendPong,
        s.step(i).0.receive(seq![PONG_BYTE]).connected,
{
}

/// Every move the controller sends reaches the platform as that very command: the
/// platform accepts its packet and drives the wheels with it.
pub proof fn lemma_controller_drives_platform(s: ControllerState, i: ControllerInput)
    requires
        s.accepts(i),
    ensures
        s.step(i).1.send matches Outgoing::Move(c) ==> {
            &&& platform_accepts(c.encoding())
            &&& platform_response(c.encoding()) matches PlatformAction::Drive { command, .. }
                && command == c
        },
{
    crate::controller::lemma_sent_in_range(s, i);
    if let Outgoing::Move(c) = s.step(i).1.send {
        lemma_platform_obeys_controller(c);
    }
}

} // verus!
