use rude_honker::protocol::{message_kind, DriveMode, MessageType, MoveCommand};

#[test]
fn message_type_bytes_round_trip() {
    for m in [MessageType::Ping, MessageType::Pong, MessageType::Move] {
        assert_eq!(MessageType::from_byte(m.to_byte()), Some(m));
    }
    assert_eq!(MessageType::Ping.to_byte(), 0x01);
    assert_eq!(MessageType::Pong.to_byte(), 0x02);
    assert_eq!(MessageType::Move.to_byte(), 0x03);
}

#[test]
fn unknown_message_bytes_are_rejected() {
    assert_eq!(MessageType::from_byte(0x00), None);
    assert_eq!(MessageType::from_byte(0x04), None);
    assert_eq!(MessageType::from_byte(0xff), None);
    for b in 0u8..=255 {
        let known = b == 1 || b == 2 || b == 3;
        assert_eq!(MessageType::from_byte(b).is_some(), known);
    }
}

#[test]
fn message_kind_reads_first_byte() {
    assert_eq!(message_kind(&[]), None);
    assert_eq!(message_kind(&[0x02, 0x99]), Some(MessageType::Pong));
    assert_eq!(message_kind(&[0x07]), None);
}

#[test]
fn drive_mode_bytes_and_toggle() {
    assert_eq!(DriveMode::Strafe.to_byte(), 0);
    assert_eq!(DriveMode::Rotate.to_byte(), 1);
    assert_eq!(DriveMode::from_byte(0), Some(DriveMode::Strafe));
    assert_eq!(DriveMode::from_byte(1), Some(DriveMode::Rotate));
    assert_eq!(DriveMode::from_byte(2), None);
    assert_eq!(DriveMode::Strafe.toggled(), DriveMode::Rotate);
    assert_eq!(DriveMode::Rotate.toggled().toggled(), DriveMode::Rotate);
    assert_eq!(DriveMode::default(), DriveMode::Strafe);
}

#[test]
fn move_command_encodes_big_endian() {
    let c = MoveCommand { x: -100, y: 100, mode: DriveMode::Rotate };
    assert_eq!(c.to_bytes(), [0x03, 0xff, 0x9c, 0x00, 0x64, 0x01]);
    let d = MoveCommand { x: 0x1234, y: -1, mode: DriveMode::Strafe };
    assert_eq!(d.to_bytes(), [0x03, 0x12, 0x34, 0xff, 0xff, 0x00]);
    let e = MoveCommand { x: i16::MIN, y: i16::MAX, mode: DriveMode::Strafe };
    assert_eq!(e.to_bytes(), [0x03, 0x80, 0x00, 0x7f, 0xff, 0x00]);
}

#[test]
fn move_command_round_trips() {
    let values = [i16::MIN, -32767, -256, -255, -129, -128, -100, -1, 0, 1, 5, 100, 127, 128, 255, 256, 32767];
    for &x in values.iter() {
        for &y in values.iter() {
            for mode in [DriveMode::Strafe, DriveMode::Rotate] {
                let c = MoveCommand { x, y, mode };
                assert_eq!(MoveCommand::from_bytes(&c.to_bytes()), Some(c));
            }
        }
    }
}

#[test]
fn legacy_five_byte_packet_defaults_mode() {
    let c = MoveCommand { x: 42, y: -7, mode: DriveMode::Rotate };
    let bytes = c.to_bytes();
    assert_eq!(
        MoveCommand::from_bytes(&bytes[..5]),
        Some(MoveCommand { x: 42, y: -7, mode: DriveMode::Strafe })
    );
}

#[test]
fn short_or_mistagged_packets_are_rejected() {
    assert_eq!(MoveCommand::from_bytes(&[]), None);
    assert_eq!(MoveCommand::from_bytes(&[0x03, 0, 0, 0]), None);
    assert_eq!(MoveCommand::from_bytes(&[0x01, 0, 0, 0, 0, 0]), None);
    assert_eq!(MoveCommand::from_bytes(&[0x02, 0, 1, 0, 1]), None);
}

#[test]
fn unknown_mode_byte_defaults_mode() {
    assert_eq!(
        MoveCommand::from_bytes(&[0x03, 0x00, 0x0a, 0xff, 0xf6, 0x09]),
        Some(MoveCommand { x: 10, y: -10, mode: DriveMode::Strafe })
    );
}

#[test]
fn trailing_bytes_are_ignored() {
    let c = MoveCommand { x: -3, y: 77, mode: DriveMode::Rotate };
    let mut bytes = c.to_bytes().to_vec();
    bytes.extend_from_slice(&[9, 9, 9]);
    assert_eq!(MoveCommand::from_bytes(&bytes), Some(c));
}

#[test]
fn decoded_packet_reencodes_to_same_bytes() {
    let packet = [0x03u8, 0xab, 0xcd, 0x01, 0x02, 0x01];
    let c = MoveCommand::from_bytes(&packet).unwrap();
    assert_eq!(c.x, 0xabcdu16 as i16);
    assert_eq!(c.y, 0x0102);
    assert_eq!(c.to_bytes(), packet);
}

#[test]
fn default_move_command_is_at_rest() {
    assert_eq!(MoveCommand::default(), MoveCommand { x: 0, y: 0, mode: DriveMode::Strafe });
}
