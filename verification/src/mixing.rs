//! Mixing a stick position into four omniwheel speeds, and speeds into motor commands.
use vstd::prelude::*;
use crate::protocol::DriveMode;

verus! {

/// Speeds closer to zero than this (either way) stop the motor.
pub const SPEED_DEADBAND: i8 = 5;

/// What one motor is told to do: the speed is a percentage of full power.
#[derive(Clone, Copy, Debug, PartialEq, Eq, Structural)]
pub enum WheelCommand {
    Forward(u8),
    Backward(u8),
    Stop,
}

impl WheelCommand {
    /// Signed speed of the command: positive forward, negative backward, 0 when stopped.
    pub open spec fn signed_speed(self) -> int {
        match self {
            WheelCommand::Forward(s) => s as int,
            WheelCommand::Backward(s) => -(s as int),
            WheelCommand::Stop => 0,
        }
    }

    /// The speed magnitude that the motor driver is asked for.
    pub open spec fn magnitude(self) -> int {
        match self {
            WheelCommand::Forward(s) => s as int,
            WheelCommand::Backward(s) => s as int,
            WheelCommand::Stop => 0,
        }
    }
}

/// `v` limited to -100..=100.
pub open spec fn clamp_100(v: int) -> int {
    if v < -100 {
        -100
    } else if v > 100 {
        100
    } else {
        v
    }
}

/// Unclamped wheel speeds (front left, front right, back left, back right).
///
/// `y` drives all wheels together. In strafe mode front-left/back-right pair against
/// front-right/back-left; in rotate mode the left side works against the right side,
/// `(y + x, y - x, y + x, y - x)`, so that a positive `x` (stick right) drives the left
/// wheels forward and the right wheels backward and the platform turns right. The two
/// modes therefore drive the front wheels alike and differ only at the back, where the
/// back wheels swap speeds. (The project's README once sketched the rotate mix with
/// the opposite sign; its own account of the modes, that they differ only in the
/// back-wheel signs, and the firmware follow the mix used here.)
pub open spec fn raw_mix(x: int, y: int, mode: DriveMode) -> (int, int, int, int) {
    match mode {
        DriveMode::Strafe => (y + x, y - x, y - x, y + x),
        DriveMode::Rotate => (y + x, y - x, y + x, y - x),
    }
}

/// Wheel speeds for a stick position, each limited to -100..=100.
pub open spec fn wheel_speeds(x: int, y: int, mode: DriveMode) -> (int, int, int, int) {
    let (fl, fr, bl, br) = raw_mix(x, y, mode);
    (clamp_100(fl), clamp_100(fr), clamp_100(bl), clamp_100(br))
}

/// Whether `y + x` and `y - x` fit in 16 bits, where the mixing adds them.
pub open spec fn mix_in_range(x: i16, y: i16) -> bool {
    &&& i16::MIN <= y + x <= i16::MAX
    &&& i16::MIN <= y - x <= i16::MAX
}

/// Whether the sums that mixing forms fit in 16 bits.
pub fn mix_fits(x: i16, y: i16) -> (r: bool)
    ensures
        r == mix_in_range(x, y),
{
    let s = y as i32 + x as i32;
    let d = y as i32 - x as i32;
    -32768 <= s && s <= 32767 && -32768 <= d && d <= 32767
}

fn clamp_speed(v: i16) -> (r: i8)
    ensures
        r == clamp_100(v as int),
{
    if v < -100 {
        -100
    } else if v > 100 {
        100
    } else {
        v as i8
    }
}

/// Converts a stick position to the four wheel speeds (front left, front right, back
/// left, back right), each in -100..=100 with positive meaning forward.
pub fn omniwheel_mix(x: i16, y: i16, mode: DriveMode) -> (r: (i8, i8, i8, i8))
    requires
        mix_in_range(x, y),
    ensures
        (r.0 as int, r.1 as int, r.2 as int, r.3 as int) == wheel_speeds(x as int, y as int, mode),
{
    let (fl, fr, bl, br) = match mode {
        DriveMode::Strafe => (y + x, y - x, y - x, y + x),
        DriveMode::Rotate => (y + x, y - x, y + x, y - x),
    };
    (clamp_speed(fl), clamp_speed(fr), clamp_speed(bl), clamp_speed(br))
}

/// The motor command for a signed speed: forward above the deadband, backward below
/// minus the deadband, else stop.
pub open spec fn command_for_speed(speed: int) -> WheelCommand {
    if speed > SPEED_DEADBAND {
        WheelCommand::Forward(speed as u8)
    } else if speed < -SPEED_DEADBAND {
        WheelCommand::Backward((-speed) as u8)
    } else {
        WheelCommand::Stop
    }
}

/// Converts a signed speed to a motor command.
pub fn speed_to_command(speed: i8) -> (r: WheelCommand)
    requires
        speed > i8::MIN,
    ensures
        r == command_for_speed(speed as int),
{
    if speed > SPEED_DEADBAND {
        WheelCommand::Forward(speed as u8)
    } else if speed < -SPEED_DEADBAND {
        WheelCommand::Backward((-speed) as u8)
    } else {
        WheelCommand::Stop
    }
}

/// Every wheel speed lies in -100..=100, and with the stick straight forward or back
/// (`x == 0`) all four wheels turn together at `y`, limited to -100..=100.
pub proof fn lemma_mix_range(x: int, y: int, mode: DriveMode)
    ensures
        ({
            let (fl, fr, bl, br) = wheel_speeds(x, y, mode);
            &&& -100 <= fl <= 100
            &&& -100 <= fr <= 100
            &&& -100 <= bl <= 100
            &&& -100 <= br <= 100
        }),
        x == 0 ==> wheel_speeds(x, y, mode) == (clamp_100(y), clamp_100(y), clamp_100(y), clamp_100(y)),
{
}

/// Where no wheel is limited (`|x| + |y| <= 100`), the four wheel speeds average to
/// `y`, the forward component, and the left and right wheels of the front axle differ
/// by `2 * x`, the sideways or turning component; at the back they differ by `2 * x`
/// when rotating and by `-2 * x` when strafing.
pub proof fn lemma_mix_components(x: int, y: int, mode: DriveMode)
    requires
        -100 <= x <= 100,
        -100 <= y <= 100,
        (if x < 0 { -x } else { x }) + (if y < 0 { -y } else { y }) <= 100,
    ensures
        ({
            let (fl, fr, bl, br) = wheel_speeds(x, y, mode);
            &&& fl + fr + bl + br == 4 * y
            &&& fl - fr == 2 * x
            &&& mode == DriveMode::Rotate ==> bl - br == 2 * x
            &&& mode == DriveMode::Strafe ==> bl - br == -2 * x
        }),
{
}

/// Pushing the stick further forward never slows any wheel, and pushing it further
/// right never slows the front-left wheel nor speeds up the front-right one; at the
/// back the left wheel follows the front-left one when rotating and the front-right one
/// when strafing.
pub proof fn lemma_mix_monotone(x1: int, x2: int, y1: int, y2: int, mode: DriveMode)
    requires
        x1 <= x2,
        y1 <= y2,
    ensures
        ({
            let a = wheel_speeds(x1, y1, mode);
            let b = wheel_speeds(x2, y1, mode);
            let c = wheel_speeds(x1, y2, mode);
            &&& a.0 <= c.0 && a.1 <= c.1 && a.2 <= c.2 && a.3 <= c.3
            &&& a.0 <= b.0 && b.1 <= a.1
            &&& mode == DriveMode::Rotate ==> a.2 <= b.2 && b.3 <= a.3
            &&& mode == DriveMode::Strafe ==> b.2 <= a.2 && a.3 <= b.3
        }),
{
}

/// Each wheel runs at its share of the stick, limited to full power: the front-left
/// wheel at `y + x` and the front-right at `y - x` when that lies in -100..=100, and
/// at full power in that direction otherwise.
pub proof fn lemma_mix_saturates(x: int, y: int, mode: DriveMode)
    ensures
        ({
            let (fl, fr, _, _) = wheel_speeds(x, y, mode);
            &&& (-100 <= y + x <= 100 ==> fl == y + x)
            &&& (y + x > 100 ==> fl == 100)
            &&& (y + x < -100 ==> fl == -100)
            &&& (-100 <= y - x <= 100 ==> fr == y - x)
            &&& (y - x > 100 ==> fr == 100)
            &&& (y - x < -100 ==> fr == -100)
        }),
{
}

/// Strafing drives the diagonals together (front left with back right, front right
/// with back left); rotating drives each side together (left wheels, right wheels).
pub proof fn lemma_mix_pairs(x: int, y: int)
    ensures
        wheel_speeds(x, y, DriveMode::Strafe).0 == wheel_speeds(x, y, DriveMode::Strafe).3,
        wheel_speeds(x, y, DriveMode::Strafe).1 == wheel_speeds(x, y, DriveMode::Strafe).2,
        wheel_speeds(x, y, DriveMode::Rotate).0 == wheel_speeds(x, y, DriveMode::Rotate).2,
        wheel_speeds(x, y, DriveMode::Rotate).1 == wheel_speeds(x, y, DriveMode::Rotate).3,
{
}

/// The two modes drive the front wheels alike and differ only at the back, where the
/// back wheels swap speeds.
pub proof fn lemma_modes_differ_at_back(x: int, y: int)
    ensures
        wheel_speeds(x, y, DriveMode::Strafe).0 == wheel_speeds(x, y, DriveMode::Rotate).0,
        wheel_speeds(x, y, DriveMode::Strafe).1 == wheel_speeds(x, y, DriveMode::Rotate).1,
        wheel_speeds(x, y, DriveMode::Strafe).2 == wheel_speeds(x, y, DriveMode::Rotate).3,
        wheel_speeds(x, y, DriveMode::Strafe).3 == wheel_speeds(x, y, DriveMode::Rotate).2,
{
}

/// Mirroring the stick left-right mirrors the wheels: the left and right wheels of
/// each axle swap speeds.
pub proof fn lemma_mix_mirror(x: int, y: int, mode: DriveMode)
    ensures
        ({
            let (fl, fr, bl, br) = wheel_speeds(x, y, mode);
            wheel_speeds(-x, y, mode) == (fr, fl, br, bl)
        }),
{
}

/// A speed in -100..=100 gives a command that the motor driver accepts (magnitude at
/// most 100), that stops exactly within the deadband, and that otherwise keeps the
/// speed with its sign.
pub proof fn lemma_command_valid(speed: int)
    requires
        -100 <= speed <= 100,
    ensures
        command_for_speed(speed).magnitude() <= 100,
        command_for_speed(speed) is Stop <==> -SPEED_DEADBAND <= speed <= SPEED_DEADBAND,
        !(command_for_speed(speed) is Stop) ==> command_for_speed(speed).signed_speed() == speed,
{
}

} // verus!
