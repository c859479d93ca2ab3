//! Full-step drive of the robot arm's bipolar stepper through two direction pins.
use vstd::prelude::*;

verus! {

/// Number of phases in the full-step sequence.
pub const STEP_PHASES: usize = 4;

/// Levels of the two direction pins in each phase of the full-step sequence:
/// (low, low), (low, high), (high, high), (high, low).
pub open spec fn coil_pattern(phase: int) -> (bool, bool) {
    if phase == 0 {
        (false, false)
    } else if phase == 1 {
        (false, true)
    } else if phase == 2 {
        (true, true)
    } else {
        (true, false)
    }
}

/// The phase after one step from `phase`, forward or backward.
pub open spec fn next_phase(phase: int, forward: bool) -> int {
    if forward {
        (phase + 1) % 4
    } else {
        (phase + 3) % 4
    }
}

/// Position of the stepper in its full-step sequence.
pub struct Stepper {
    index: usize,
}

impl Stepper {
    #[verifier::type_invariant]
    spec fn wf(self) -> bool {
        self.index < STEP_PHASES
    }

    /// The current phase, in 0..4.
    pub closed spec fn phase(self) -> int {
        self.index as int
    }

    /// A stepper at the first phase of the sequence.
    pub fn new() -> (s: Self)
        ensures
            s.phase() == 0,
    {
        Stepper { index: 0 }
    }

    /// The current phase.
    pub fn current_phase(&self) -> (p: usize)
        ensures
            p == self.phase(),
            p < STEP_PHASES,
    {
        proof {
            use_type_invariant(self);
        }
        self.index
    }

    /// One step: returns the pin levels of the current phase, to be written to the two
    /// direction pins, and moves to the next phase (forward) or the previous one.
    pub fn step(&mut self, forward: bool) -> (pins: (bool, bool))
        ensures
            0 <= old(self).phase() < 4,
            pins == coil_pattern(old(self).phase()),
            final(self).phase() == next_phase(old(self).phase(), forward),
    {
        proof {
            use_type_invariant(&*self);
        }
        let pins = match self.index {
            0 => (false, false),
            1 => (false, true),
            2 => (true, true),
            _ => (true, false),
        };
        if forward {
            self.index = (self.index + 1) % STEP_PHASES;
        } else {
            self.index = (self.index + 3) % STEP_PHASES;
        }
        pins
    }
}

/// A step forward followed by a step backward, or the other way round, comes back to
/// the same phase; four steps the same way go once round the sequence.
pub proof fn lemma_step_inverse(phase: int, forward: bool)
    requires
        0 <= phase < 4,
    ensures
        0 <= next_phase(phase, forward) < 4,
        next_phase(next_phase(phase, forward), !forward) == phase,
        next_phase(next_phase(next_phase(next_phase(phase, forward), forward), forward), forward)
            == phase,
{
}

/// Consecutive phases differ on exactly one of the two pins, in either direction.
pub proof fn lemma_one_pin_changes(phase: int, forward: bool)
    requires
        0 <= phase < 4,
    ensures
        ({
            let a = coil_pattern(phase);
            let b = coil_pattern(next_phase(phase, forward));
            (a.0 != b.0) != (a.1 != b.1)
        }),
{
}

/// The two pins run in quadrature: stepping forward, the first pin takes the second's
/// old level and the second pin the inverse of the first's; stepping backward, the
/// second takes the first's old level and the first the inverse of the second's. The
/// sequence starts with both pins low.
pub proof fn lemma_quadrature(phase: int, forward: bool)
    requires
        0 <= phase < 4,
    ensures
        coil_pattern(0) == (false, false),
        ({
            let a = coil_pattern(phase);
            let b = coil_pattern(next_phase(phase, forward));
            &&& forward ==> b.0 == a.1 && b.1 == !a.0
            &&& !forward ==> b.1 == a.0 && b.0 == !a.1
        }),
{
}

} // verus!
