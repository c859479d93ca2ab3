use rude_honker::joystick::{adc_to_joystick, joystick_center, CAL_SAMPLES, DEADZONE};

#[test]
fn joystick_deadzone_reads_zero() {
    assert_eq!(adc_to_joystick(1650, 1650), 0);
    assert_eq!(adc_to_joystick(1650 + 149, 1650), 0);
    assert_eq!(adc_to_joystick(1650 - 149, 1650), 0);
    assert_eq!(DEADZONE, 150);
}

#[test]
fn joystick_scales_by_center() {
    assert_eq!(adc_to_joystick(1650 + 150, 1650), 9);
    assert_eq!(adc_to_joystick(1650 - 150, 1650), -9);
    assert_eq!(adc_to_joystick(2475, 1650), 50);
    assert_eq!(adc_to_joystick(825, 1650), -50);
    assert_eq!(adc_to_joystick(3300, 1650), 100);
    assert_eq!(adc_to_joystick(0, 1650), -100);
}

#[test]
fn joystick_truncates_toward_zero() {
    // 200 * 100 / 1500 = 13.33
    assert_eq!(adc_to_joystick(1700, 1500), 13);
    assert_eq!(adc_to_joystick(1300, 1500), -13);
}

#[test]
fn joystick_caps_at_full_deflection() {
    assert_eq!(adc_to_joystick(65535, 1000), 100);
    assert_eq!(adc_to_joystick(149, 0), 0);
    assert_eq!(adc_to_joystick(0, 65535), -100);
}

#[test]
fn joystick_is_monotone_and_bounded() {
    let center = 1234u16;
    let mut prev = i16::MIN;
    let mut mv: u32 = 0;
    while mv <= 65535 {
        let v = adc_to_joystick(mv as u16, center);
        assert!(v >= prev);
        assert!((-100..=100).contains(&v));
        prev = v;
        mv += 7;
    }
}

#[test]
fn joystick_center_averages() {
    let samples = [2000u16; 16];
    assert_eq!(joystick_center(&samples), 2000);
    let mixed = [1000u16, 1001, 1002, 1003];
    assert_eq!(joystick_center(&mixed), 1001);
    let big = [65535u16; 16];
    assert_eq!(joystick_center(&big), 65535);
    assert_eq!(CAL_SAMPLES, 16);
}
