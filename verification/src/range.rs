//! Named clamps bounding stick coordinates and trigger magnitudes to the
//! hardware's valid envelope.

use vstd::prelude::*;

verus! {

/// Nominal center of the main stick and the C stick, on both axes.
pub const STICK_CENTER: u8 = 0x80;

/// Clamp radius around the stick center.
pub const STICK_RADIUS: u8 = 0x7F;

/// Lower bound of the analog trigger domain.
pub const TRIGGER_MIN: u8 = 0x00;

/// Upper bound of the analog trigger domain.
pub const TRIGGER_MAX: u8 = 0xFF;

/// `n` forced into `[lo, hi]`.
pub open spec fn spec_clamp(n: int, lo: int, hi: int) -> int {
    if n < lo {
        lo
    } else if n > hi {
        hi
    } else {
        n
    }
}

/// The clamped value always lies within ordered bounds.
pub proof fn lemma_clamp_bounds(n: int, lo: int, hi: int)
    requires
        lo <= hi,
    ensures
        lo <= spec_clamp(n, lo, hi) <= hi,
{
}

/// `n` forced into `[min, max]`.
pub fn clamp(n: i16, min: i16, max: i16) -> (r: i16)
    requires
        min <= max,
    ensures
        r == spec_clamp(n as int, min as int, max as int),
{
    if n < min {
        min
    } else if n > max {
        max
    } else {
        n
    }
}

/// Clamp for a stick axis pair: both coordinates are bounded around a
/// common per-axis center with a fixed radius.
#[derive(Debug, Clone, Copy)]
pub struct StickRange {
    pub center_x: u8,
    pub center_y: u8,
    pub radius: u8,
}

impl StickRange {
    pub fn new(center_x: u8, center_y: u8, radius: u8) -> (r: StickRange)
        ensures
            r.center_x == center_x,
            r.center_y == center_y,
            r.radius == radius,
    {
        StickRange { center_x, center_y, radius }
    }

    /// One axis clamped into `[center - radius, center + radius]` and
    /// narrowed back to a byte.
    pub open spec fn spec_restrict_axis(center: u8, radius: u8, v: int) -> u8 {
        spec_clamp(v, center - radius, center + radius) as u8
    }

    pub fn restrict(self, x: i16, y: i16) -> (r: (u8, u8))
        ensures
            r.0 == Self::spec_restrict_axis(self.center_x, self.radius, x as int),
            r.1 == Self::spec_restrict_axis(self.center_y, self.radius, y as int),
    {
        let center_x: i16 = self.center_x as i16;
        let center_y: i16 = self.center_y as i16;
        let radius: i16 = self.radius as i16;

        let xx = clamp(x, center_x - radius, center_x + radius);
        let yy = clamp(y, center_y - radius, center_y + radius);

        (#[verifier::truncate] (xx as u8), #[verifier::truncate] (yy as u8))
    }
}

/// Clamp for a single analog channel, bounded into `[min, max]`.
#[derive(Debug, Clone, Copy)]
pub struct AnalogRange {
    pub min: u8,
    pub max: u8,
}

impl AnalogRange {
    /// The bounds must be ordered; `restrict` relies on it.
    pub open spec fn wf(self) -> bool {
        self.min <= self.max
    }

    pub fn new(min: u8, max: u8) -> (r: AnalogRange)
        requires
            min <= max,
        ensures
            r.min == min,
            r.max == max,
            r.wf(),
    {
        AnalogRange { min, max }
    }

    /// The channel clamped into `[min, max]` and narrowed back to a byte.
    pub open spec fn spec_restrict(self, n: int) -> u8 {
        spec_clamp(n, self.min as int, self.max as int) as u8
    }

    pub fn restrict(self, n: i16) -> (r: u8)
        requires
            self.wf(),
        ensures
            r == self.spec_restrict(n as int),
    {
        let min: i16 = self.min as i16;
        let max: i16 = self.max as i16;

        #[verifier::truncate]
        (clamp(n, min, max) as u8)
    }
}

} // verus!
