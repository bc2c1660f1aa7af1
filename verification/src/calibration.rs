//! Per-port drift correction: a signed delta per axis, captured from the
//! first sample after connection and added to every later sample.

use vstd::prelude::*;
use crate::input::Input;
use crate::range::{
    clamp, spec_clamp, AnalogRange, StickRange, STICK_CENTER, STICK_RADIUS, TRIGGER_MAX,
    TRIGGER_MIN,
};

verus! {

/// Signed per-axis offsets for one port, computed once at the instant
/// the port transitions from disconnected to connected.
#[derive(Debug, Copy, Clone, PartialEq, Eq, Structural)]
pub struct Calibration {
    pub stick_x: i16,
    pub stick_y: i16,
    pub substick_x: i16,
    pub substick_y: i16,
    pub trigger_left: i16,
    pub trigger_right: i16,
}

impl Calibration {
    /// Every delta a baseline can produce: the axis's nominal value
    /// minus a raw byte, so each lies within a one-byte span of the
    /// nominal value.
    pub open spec fn wf(self) -> bool {
        &&& STICK_CENTER - 255 <= self.stick_x <= STICK_CENTER
        &&& STICK_CENTER - 255 <= self.stick_y <= STICK_CENTER
        &&& STICK_CENTER - 255 <= self.substick_x <= STICK_CENTER
        &&& STICK_CENTER - 255 <= self.substick_y <= STICK_CENTER
        &&& TRIGGER_MIN - 255 <= self.trigger_left <= TRIGGER_MIN
        &&& TRIGGER_MIN - 255 <= self.trigger_right <= TRIGGER_MIN
    }

    /// The baseline taken from the first raw sample after connection:
    /// nominal center (sticks) or minimum (triggers) minus the sample.
    pub open spec fn spec_new(initial: Input) -> Calibration {
        Calibration {
            stick_x: (STICK_CENTER - initial.stick_x) as i16,
            stick_y: (STICK_CENTER - initial.stick_y) as i16,
            substick_x: (STICK_CENTER - initial.substick_x) as i16,
            substick_y: (STICK_CENTER - initial.substick_y) as i16,
            trigger_left: (TRIGGER_MIN - initial.trigger_left) as i16,
            trigger_right: (TRIGGER_MIN - initial.trigger_right) as i16,
        }
    }

    pub fn new(initial: &Input) -> (r: Calibration)
        ensures
            r == Calibration::spec_new(*initial),
            r.wf(),
    {
        Calibration {
            stick_x: STICK_CENTER as i16 - initial.stick_x as i16,
            stick_y: STICK_CENTER as i16 - initial.stick_y as i16,
            substick_x: STICK_CENTER as i16 - initial.substick_x as i16,
            substick_y: STICK_CENTER as i16 - initial.substick_y as i16,
            trigger_left: TRIGGER_MIN as i16 - initial.trigger_left as i16,
            trigger_right: TRIGGER_MIN as i16 - initial.trigger_right as i16,
        }
    }

    /// The corrected sample: each axis shifted by its delta and clamped
    /// back into its hardware range; button flags pass through.
    pub open spec fn spec_correct(self, input: Input) -> Input {
        Input {
            stick_x: StickRange::spec_restrict_axis(
                STICK_CENTER,
                STICK_RADIUS,
                input.stick_x + self.stick_x,
            ),
            stick_y: StickRange::spec_restrict_axis(
                STICK_CENTER,
                STICK_RADIUS,
                input.stick_y + self.stick_y,
            ),
            substick_x: StickRange::spec_restrict_axis(
                STICK_CENTER,
                STICK_RADIUS,
                input.substick_x + self.substick_x,
            ),
            substick_y: StickRange::spec_restrict_axis(
                STICK_CENTER,
                STICK_RADIUS,
                input.substick_y + self.substick_y,
            ),
            trigger_left: spec_clamp(
                input.trigger_left + self.trigger_left,
                TRIGGER_MIN as int,
                TRIGGER_MAX as int,
            ) as u8,
            trigger_right: spec_clamp(
                input.trigger_right + self.trigger_right,
                TRIGGER_MIN as int,
                TRIGGER_MAX as int,
            ) as u8,
            ..input
        }
    }

    pub fn correct(&self, input: Input) -> (r: Input)
        requires
            self.wf(),
        ensures
            r == self.spec_correct(input),
    {
        let main_stick = StickRange::new(STICK_CENTER, STICK_CENTER, STICK_RADIUS);
        let c_stick = StickRange::new(STICK_CENTER, STICK_CENTER, STICK_RADIUS);
        let trigger_range = AnalogRange::new(TRIGGER_MIN, TRIGGER_MAX);

        let (stick_x, stick_y) = main_stick.restrict(
            input.stick_x as i16 + self.stick_x,
            input.stick_y as i16 + self.stick_y,
        );

        let (substick_x, substick_y) = c_stick.restrict(
            input.substick_x as i16 + self.substick_x,
            input.substick_y as i16 + self.substick_y,
        );

        let trigger_left = trigger_range.restrict(input.trigger_left as i16 + self.trigger_left);
        let trigger_right = trigger_range.restrict(input.trigger_right as i16 + self.trigger_right);

        let mut out = input;
        out.stick_x = stick_x;
        out.stick_y = stick_y;
        out.substick_x = substick_x;
        out.substick_y = substick_y;
        out.trigger_left = trigger_left;
        out.trigger_right = trigger_right;
        out
    }
}

/// Every corrected sample lies in its axis's hardware envelope: stick
/// axes within `center - radius ..= center + radius`, triggers within
/// `min ..= max` — for any raw input bytes and any deltas at all.
pub proof fn lemma_correct_in_envelope(c: Calibration, input: Input)
    ensures
        STICK_CENTER - STICK_RADIUS <= c.spec_correct(input).stick_x <= STICK_CENTER + STICK_RADIUS,
        STICK_CENTER - STICK_RADIUS <= c.spec_correct(input).stick_y <= STICK_CENTER + STICK_RADIUS,
        STICK_CENTER - STICK_RADIUS <= c.spec_correct(input).substick_x <= STICK_CENTER
            + STICK_RADIUS,
        STICK_CENTER - STICK_RADIUS <= c.spec_correct(input).substick_y <= STICK_CENTER
            + STICK_RADIUS,
        TRIGGER_MIN <= c.spec_correct(input).trigger_left <= TRIGGER_MAX,
        TRIGGER_MIN <= c.spec_correct(input).trigger_right <= TRIGGER_MAX,
{
}

/// Two equal baselines can only come from samples with equal analog
/// channels: the baseline pins the first sample's axes exactly.
pub proof fn lemma_baseline_injective(a: Input, b: Input)
    requires
        Calibration::spec_new(a) == Calibration::spec_new(b),
    ensures
        a.stick_x == b.stick_x,
        a.stick_y == b.stick_y,
        a.substick_x == b.substick_x,
        a.substick_y == b.substick_y,
        a.trigger_left == b.trigger_left,
        a.trigger_right == b.trigger_right,
{
}

} // verus!
