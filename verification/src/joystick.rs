//! Turning calibrated joystick readings (millivolts) into stick positions.
use vstd::prelude::*;
use vstd::arithmetic::div_mod::lemma_div_is_ordered;

verus! {

/// Readings closer than this to the resting value (in millivolts) count as centred.
pub const DEADZONE: i16 = 150;

/// Number of readings averaged to find the resting value of an axis.
pub const CAL_SAMPLES: u32 = 16;

/// Absolute value.
pub open spec fn abs(v: int) -> int {
    if v < 0 {
        -v
    } else {
        v
    }
}

/// Whether a reading can be scaled against `center` at all: outside the deadzone the
/// scaling divides by `center`.
pub open spec fn joystick_defined(mv: u16, center: u16) -> bool {
    center > 0 || (mv as int) < DEADZONE
}

/// Stick position for reading `mv` of an axis that rests at `center`: 0 inside the
/// deadzone, else the deviation from `center` as a percentage of `center`, truncated
/// toward zero and capped at 100 in either direction.
pub open spec fn joystick_value(mv: u16, center: u16) -> int {
    let d = mv as int - center as int;
    if abs(d) < DEADZONE {
        0
    } else if d < 0 {
        -min_100(abs(d) * 100 / (center as int))
    } else {
        min_100(abs(d) * 100 / (center as int))
    }
}

/// `v` capped at 100.
pub open spec fn min_100(v: int) -> int {
    if v > 100 {
        100
    } else {
        v
    }
}

/// Whether `adc_to_joystick` can scale reading `mv` against `center`.
pub fn can_scale(mv: u16, center: u16) -> (r: bool)
    ensures
        r == joystick_defined(mv, center),
{
    center > 0 || mv < DEADZONE as u16
}

/// Converts a calibrated ADC reading (millivolts) to a stick position in -100..=100.
///
/// A joystick pot is ratiometric: it rests near half the supply and swings from 0 to
/// the full supply, so the span in each direction is `center`.
pub fn adc_to_joystick(mv: u16, center: u16) -> (r: i16)
    requires
        joystick_defined(mv, center),
    ensures
        r == joystick_value(mv, center),
        -100 <= r <= 100,
{
    let centered: i32 = (mv as i32) - (center as i32);
    let magnitude: u32 = if centered < 0 {
        (-centered) as u32
    } else {
        centered as u32
    };
    if magnitude < DEADZONE as u32 {
        return 0;
    }
    let scaled: i32 = (centered * 100) / (center as i32);
    proof {
        if centered >= 0 {
            assert(scaled == abs(centered as int) * 100 / (center as int));
        } else {
            assert(scaled == -(abs(centered as int) * 100 / (center as int)));
        }
    }
    let capped: i32 = if scaled < -100 {
        -100
    } else if scaled > 100 {
        100
    } else {
        scaled
    };
    capped as i16
}

/// Sum of a sequence of readings.
pub open spec fn sum_readings(s: Seq<u16>) -> int
    decreases s.len(),
{
    if s.len() == 0 {
        0
    } else {
        sum_readings(s.drop_last()) + s.last() as int
    }
}

/// The resting value of an axis: the average of its calibration readings, rounded down.
pub fn joystick_center(samples: &[u16]) -> (c: u16)
    requires
        0 < samples.len() <= 65536,
    ensures
        c as int == sum_readings(samples@) / (samples.len() as int),
{
    let mut sum: u32 = 0;
    let mut i: usize = 0;
    while i < samples.len()
        invariant
            i <= samples.len() <= 65536,
            sum as int == sum_readings(samples@.take(i as int)),
            sum <= 65535 * i,
        decreases samples.len() - i,
    {
        assert(samples@.take((i + 1) as int).drop_last() =~= samples@.take(i as int));
        sum = sum + samples[i] as u32;
        i = i + 1;
    }
    assert(samples@.take(i as int) =~= samples@);
    let n: u32 = samples.len() as u32;
    proof {
        lemma_div_is_ordered(sum as int, 65535 * n, n as int);
        assert((65535 * n) / (n as int) == 65535) by (nonlinear_arith)
            requires
                n > 0,
        ;
    }
    (sum / n) as u16
}

/// Stick positions always lie in -100..=100.
pub proof fn lemma_joystick_range(mv: u16, center: u16)
    requires
        joystick_defined(mv, center),
    ensures
        -100 <= joystick_value(mv, center) <= 100,
        abs(mv as int - center as int) < DEADZONE ==> joystick_value(mv, center) == 0,
{
    let d = mv as int - center as int;
    if abs(d) >= DEADZONE {
        assert(center > 0);
        assert(abs(d) * 100 / (center as int) >= 0) by (nonlinear_arith)
            requires
                abs(d) >= 0,
                center > 0,
        ;
    }
}

/// For a fixed resting value, pushing the stick further never lowers its position.
pub proof fn lemma_joystick_monotone(a: u16, b: u16, center: u16)
    requires
        center > 0,
        a <= b,
    ensures
        joystick_value(a, center) <= joystick_value(b, center),
{
    let da = a as int - center as int;
    let db = b as int - center as int;
    let c = center as int;
    assert(abs(da) * 100 / c >= 0) by (nonlinear_arith)
        requires
            abs(da) >= 0,
            c > 0,
    ;
    assert(abs(db) * 100 / c >= 0) by (nonlinear_arith)
        requires
            abs(db) >= 0,
            c > 0,
    ;
    if da >= 0 && db >= 0 {
        lemma_div_is_ordered(abs(da) * 100, abs(db) * 100, c);
    } else if da < 0 && db < 0 {
        lemma_div_is_ordered(abs(db) * 100, abs(da) * 100, c);
    }
}

/// Readings the same distance above and below the resting value give opposite positions.
pub proof fn lemma_joystick_symmetric(center: u16, d: u16)
    requires
        center > 0,
        d <= center,
        center as int + d as int <= 65535,
    ensures
        joystick_value((center + d) as u16, center) == -joystick_value((center - d) as u16, center),
{
}

/// Outside the deadzone, the position points the way of the deviation `d = mv - center`
/// and its size `|v|` is the largest whole percentage of `center` that `|d|` reaches:
/// `|v| * center <= |d| * 100 < (|v| + 1) * center` while `|d| < center`, and `|v|` is
/// 100 once `|d|` reaches `center`.
pub proof fn lemma_joystick_scale(mv: u16, center: u16)
    requires
        center > 0,
        abs(mv as int - center as int) >= DEADZONE,
    ensures
        mv > center ==> joystick_value(mv, center) >= 0,
        mv < center ==> joystick_value(mv, center) <= 0,
        abs(mv as int - center as int) >= center ==> abs(joystick_value(mv, center)) == 100,
        abs(mv as int - center as int) < center ==> abs(joystick_value(mv, center)) * center
            <= abs(mv as int - center as int) * 100 < (abs(joystick_value(mv, center)) + 1)
            * center,
{
    let d = mv as int - center as int;
    let c = center as int;
    let a = abs(d);
    let q = a * 100 / c;
    assert(q * c <= a * 100 < (q + 1) * c) by (nonlinear_arith)
        requires
            c > 0,
            a >= 0,
            q == a * 100 / c,
    ;
    assert(q >= 0) by (nonlinear_arith)
        requires
            c > 0,
            a >= 0,
            q == a * 100 / c,
    ;
    if a >= c {
        assert(q >= 100) by (nonlinear_arith)
            requires
                c > 0,
                a >= c,
                q == a * 100 / c,
        ;
    } else {
        assert(q < 100) by (nonlinear_arith)
            requires
                c > 0,
                a < c,
                a >= 0,
                q == a * 100 / c,
        ;
        assert(abs(joystick_value(mv, center)) == q);
    }
}

proof fn lemma_sum_between(s: Seq<u16>, lo: int, hi: int)
    requires
        forall|k: int| 0 <= k < s.len() ==> lo <= #[trigger] s[k] <= hi,
    ensures
        lo * s.len() <= sum_readings(s) <= hi * s.len(),
    decreases s.len(),
{
    if s.len() > 0 {
        let t = s.drop_last();
        assert forall|k: int| 0 <= k < t.len() implies lo <= #[trigger] t[k] <= hi by {
            assert(t[k] == s[k]);
        }
        lemma_sum_between(t, lo, hi);
        assert(lo * s.len() == lo * t.len() + lo) by (nonlinear_arith)
            requires
                s.len() == t.len() + 1,
        ;
        assert(hi * s.len() == hi * t.len() + hi) by (nonlinear_arith)
            requires
                s.len() == t.len() + 1,
        ;
    }
}

/// The resting value lies between the smallest and the largest calibration reading;
/// in particular, readings that all agree give that reading.
pub proof fn lemma_center_between(samples: Seq<u16>, lo: u16, hi: u16)
    requires
        samples.len() > 0,
        forall|k: int| 0 <= k < samples.len() ==> lo <= #[trigger] samples[k] <= hi,
    ensures
        lo <= sum_readings(samples) / (samples.len() as int) <= hi,
{
    let n = samples.len() as int;
    lemma_sum_between(samples, lo as int, hi as int);
    let t = sum_readings(samples);
    assert(lo <= t / n <= hi) by (nonlinear_arith)
        requires
            n > 0,
            lo * n <= t <= hi * n,
    ;
}

} // verus!
