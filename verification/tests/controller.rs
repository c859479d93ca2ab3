use rude_honker::controller::{ControllerAction, ControllerInput, ControllerState, Outgoing, DEBOUNCE_MS, MODE_RESENDS};
use rude_honker::protocol::{DriveMode, MoveCommand};

const CX: u16 = 1650;
const CY: u16 = 1600;

fn input(button_down: bool, now_ms: u64, x_mv: u16, y_mv: u16) -> ControllerInput {
    ControllerInput { button_down, now_ms, x_mv, y_mv }
}

fn rest(now_ms: u64) -> ControllerInput {
    input(false, now_ms, CX, CY)
}

fn connected() -> ControllerState {
    let mut s = ControllerState::new(CX, CY);
    assert!(s.on_message(&[0x02]));
    s
}

#[test]
fn searching_controller_blinks_and_pings() {
    let mut s = ControllerState::new(CX, CY);
    assert!(!s.connected);
    let a = s.tick(rest(0));
    assert_eq!(a, ControllerAction { mode_changed: false, send: Outgoing::Ping { led_on: true } });
    let b = s.tick(rest(50));
    assert_eq!(b.send, Outgoing::Ping { led_on: false });
    let c = s.tick(rest(100));
    assert_eq!(c.send, Outgoing::Ping { led_on: true });
}

#[test]
fn pong_connects_once_and_for_all() {
    let mut s = ControllerState::new(CX, CY);
    assert!(!s.on_message(&[0x01]));
    assert!(!s.on_message(&[]));
    assert!(!s.connected);
    assert!(s.on_message(&[0x02, 0xaa]));
    assert!(s.connected);
    assert!(!s.on_message(&[0x02]));
    assert!(!s.on_message(&[0x07]));
    assert!(s.connected);
    s.tick(rest(0));
    assert!(s.connected);
}

#[test]
fn still_stick_sends_nothing() {
    let mut s = connected();
    assert_eq!(s.tick(rest(0)).send, Outgoing::Nothing);
    assert_eq!(s.tick(input(false, 50, CX + 100, CY - 100)).send, Outgoing::Nothing);
}

#[test]
fn moving_stick_sends_move() {
    let mut s = connected();
    let a = s.tick(input(false, 0, 3300, CY));
    assert_eq!(a.send, Outgoing::Move(MoveCommand { x: 100, y: 0, mode: DriveMode::Strafe }));
    // unchanged position: nothing more
    assert_eq!(s.tick(input(false, 50, 3300, CY)).send, Outgoing::Nothing);
    // y moves by a small amount past the deadzone: 150 * 100 / 1600 = 9
    let b = s.tick(input(false, 100, 3300, CY + 150));
    assert_eq!(b.send, Outgoing::Move(MoveCommand { x: 100, y: 9, mode: DriveMode::Strafe }));
    assert_eq!(s.last_sent, MoveCommand { x: 100, y: 9, mode: DriveMode::Strafe });
}

#[test]
fn threshold_is_more_than_five() {
    let mut s = connected();
    s.last_sent = MoveCommand { x: 10, y: 0, mode: DriveMode::Strafe };
    // 1650 + 264 -> 264 * 100 / 1650 = 16: moved by 6
    let a = s.tick(input(false, 0, CX + 264, CY));
    assert_eq!(a.send, Outgoing::Move(MoveCommand { x: 16, y: 0, mode: DriveMode::Strafe }));
    // 1650 + 247 -> 14: moved by 2 from 16
    let b = s.tick(input(false, 50, CX + 247, CY));
    assert_eq!(b.send, Outgoing::Nothing);
    // 1650 + 181 -> 10: moved by exactly 6 from 16
    let c = s.tick(input(false, 100, CX + 181, CY));
    assert_eq!(c.send, Outgoing::Move(MoveCommand { x: 10, y: 0, mode: DriveMode::Strafe }));
}

#[test]
fn press_toggles_mode_and_resends() {
    let mut s = connected();
    let a = s.tick(input(true, 1000, CX, CY));
    assert!(a.mode_changed);
    assert_eq!(s.mode, DriveMode::Rotate);
    assert_eq!(a.send, Outgoing::Move(MoveCommand { x: 0, y: 0, mode: DriveMode::Rotate }));
    let mut sends = 1;
    for k in 1..10u64 {
        let r = s.tick(input(true, 1000 + 50 * k, CX, CY));
        assert!(!r.mode_changed);
        if let Outgoing::Move(c) = r.send {
            assert_eq!(c.mode, DriveMode::Rotate);
            sends += 1;
        }
    }
    assert_eq!(sends, MODE_RESENDS as u32);
    assert_eq!(s.mode_resends, 0);
}

#[test]
fn holding_button_toggles_once() {
    let mut s = connected();
    assert!(s.tick(input(true, 0, CX, CY)).mode_changed);
    for k in 1..20u64 {
        assert!(!s.tick(input(true, 50 * k, CX, CY)).mode_changed);
    }
    assert_eq!(s.mode, DriveMode::Rotate);
}

#[test]
fn bounce_within_debounce_is_ignored() {
    let mut s = connected();
    assert!(s.tick(input(true, 1000, CX, CY)).mode_changed);
    assert!(!s.tick(input(false, 1050, CX, CY)).mode_changed);
    // a second edge 100 ms after the toggle is contact bounce
    assert!(!s.tick(input(true, 1100, CX, CY)).mode_changed);
    assert_eq!(s.mode, DriveMode::Rotate);
    assert!(!s.tick(input(false, 1150, CX, CY)).mode_changed);
    // a real press after the debounce time toggles again
    assert!(s.tick(input(true, 1000 + DEBOUNCE_MS, CX, CY)).mode_changed);
    assert_eq!(s.mode, DriveMode::Strafe);
}

#[test]
fn toggle_while_searching_is_sent_after_connecting() {
    let mut s = ControllerState::new(CX, CY);
    let a = s.tick(input(true, 0, CX, CY));
    assert!(a.mode_changed);
    assert_eq!(a.send, Outgoing::Ping { led_on: true });
    assert!(s.on_message(&[0x02]));
    let b = s.tick(rest(50));
    assert_eq!(b.send, Outgoing::Move(MoveCommand { x: 0, y: 0, mode: DriveMode::Rotate }));
}

#[test]
fn new_controller_starts_strafing() {
    let s = ControllerState::new(CX, CY);
    assert_eq!(s.mode, DriveMode::Strafe);
    assert_eq!(s.last_sent, MoveCommand::default());
    assert_eq!(s.last_toggle_ms, None);
    assert_eq!(s.mode_resends, 0);
    assert!(!s.blink_on);
}
