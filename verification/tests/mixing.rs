use rude_honker::mixing::{mix_fits, omniwheel_mix, speed_to_command, WheelCommand};
use rude_honker::protocol::DriveMode;

#[test]
fn strafe_mix_pairs_diagonals() {
    assert_eq!(omniwheel_mix(30, 50, DriveMode::Strafe), (80, 20, 20, 80));
    assert_eq!(omniwheel_mix(100, 0, DriveMode::Strafe), (100, -100, -100, 100));
}

#[test]
fn rotate_mix_pairs_sides() {
    assert_eq!(omniwheel_mix(30, 50, DriveMode::Rotate), (80, 20, 80, 20));
    assert_eq!(omniwheel_mix(-100, 0, DriveMode::Rotate), (-100, 100, -100, 100));
    assert_eq!(omniwheel_mix(50, 0, DriveMode::Rotate), (50, -50, 50, -50));
}

#[test]
fn mix_clamps_to_hundred() {
    assert_eq!(omniwheel_mix(100, 100, DriveMode::Strafe), (100, 0, 0, 100));
    assert_eq!(omniwheel_mix(-100, -100, DriveMode::Rotate), (-100, 0, -100, 0));
    assert_eq!(omniwheel_mix(1000, 1000, DriveMode::Strafe), (100, 0, 0, 100));
}

#[test]
fn forward_stick_drives_all_wheels_together() {
    for mode in [DriveMode::Strafe, DriveMode::Rotate] {
        assert_eq!(omniwheel_mix(0, 60, mode), (60, 60, 60, 60));
        assert_eq!(omniwheel_mix(0, -250, mode), (-100, -100, -100, -100));
    }
}

#[test]
fn modes_differ_only_at_the_back() {
    for x in [-100i16, -37, 0, 12, 100] {
        for y in [-100i16, -5, 0, 44, 100] {
            let s = omniwheel_mix(x, y, DriveMode::Strafe);
            let r = omniwheel_mix(x, y, DriveMode::Rotate);
            assert_eq!((s.0, s.1), (r.0, r.1));
            assert_eq!((s.2, s.3), (r.3, r.2));
        }
    }
}

#[test]
fn mirrored_stick_mirrors_wheels() {
    let a = omniwheel_mix(40, 10, DriveMode::Strafe);
    let b = omniwheel_mix(-40, 10, DriveMode::Strafe);
    assert_eq!(b, (a.1, a.0, a.3, a.2));
    let c = omniwheel_mix(40, 10, DriveMode::Rotate);
    let d = omniwheel_mix(-40, 10, DriveMode::Rotate);
    assert_eq!(d, (c.1, c.0, c.3, c.2));
}

#[test]
fn mix_fits_detects_overflow() {
    assert!(mix_fits(100, 100));
    assert!(mix_fits(0, i16::MIN));
    assert!(!mix_fits(i16::MIN, 0));
    assert!(!mix_fits(i16::MIN, -1));
    assert!(!mix_fits(1, i16::MAX));
    assert!(!mix_fits(-1, i16::MAX));
}

#[test]
fn speed_deadband_stops() {
    for s in -5i8..=5 {
        assert_eq!(speed_to_command(s), WheelCommand::Stop);
    }
}

#[test]
fn speeds_map_to_directions() {
    assert_eq!(speed_to_command(6), WheelCommand::Forward(6));
    assert_eq!(speed_to_command(100), WheelCommand::Forward(100));
    assert_eq!(speed_to_command(-6), WheelCommand::Backward(6));
    assert_eq!(speed_to_command(-100), WheelCommand::Backward(100));
    assert_eq!(speed_to_command(127), WheelCommand::Forward(127));
    assert_eq!(speed_to_command(-127), WheelCommand::Backward(127));
}
