//! Tooth patterns of the supported trigger wheels.

use vstd::prelude::*;

verus! {

/// A supported trigger-wheel pattern. Each gap is one left-out tooth, so it
/// spans two tooth-widths between the edges around it.
#[derive(Clone, Copy, Debug, PartialEq, Eq, Structural)]
pub enum WheelGeometry {
    /// 36 tooth positions, one of them left out.
    ThirtySixMinusOne,
    /// 36 tooth positions, three evenly spaced ones left out.
    ThirtySixMinusThree,
}

/// Whether `interval` lies between 1.5 and 2.5 times `recent_average`, both
/// ends included: the span of a gap two tooth-widths wide.
pub open spec fn spec_plausible_gap(interval: int, recent_average: int) -> bool {
    &&& recent_average > 0
    &&& 2 * interval >= 3 * recent_average
    &&& 2 * interval <= 5 * recent_average
}

impl WheelGeometry {
    pub open spec fn spec_tooth_count(self) -> u32 {
        36
    }

    pub open spec fn spec_missing_teeth(self) -> u32 {
        match self {
            WheelGeometry::ThirtySixMinusOne => 1,
            WheelGeometry::ThirtySixMinusThree => 3,
        }
    }

    /// Tooth positions per revolution, the left-out ones included.
    pub fn expected_tooth_count(&self) -> (r: u32)
        ensures
            r == self.spec_tooth_count(),
    {
        36
    }

    /// Tooth positions per revolution that carry no tooth.
    pub fn missing_teeth(&self) -> (r: u32)
        ensures
            r == self.spec_missing_teeth(),
            r < self.spec_tooth_count(),
    {
        match self {
            WheelGeometry::ThirtySixMinusOne => 1,
            WheelGeometry::ThirtySixMinusThree => 3,
        }
    }

    /// Whether `interval` fits a designed gap of this wheel, given the mean
    /// interval of the recent teeth: it must lie between 1.5 and 2.5 times
    /// that mean. A mean of zero carries no information and fits no gap.
    pub fn is_plausible_gap(&self, interval: u32, recent_average: u32) -> (r: bool)
        ensures
            r == spec_plausible_gap(interval as int, recent_average as int),
    {
        let twice: u64 = 2 * (interval as u64);
        let avg: u64 = recent_average as u64;
        recent_average > 0 && twice >= 3 * avg && twice <= 5 * avg
    }
}

/// For every recent mean `t > 0`: an interval of `2t` fits a gap, one of
/// `5t` does not, and one of `1.1t` (where `t` is a multiple of ten, so that
/// it is a whole number of ticks) does not.
pub proof fn lemma_gap_band(t: int)
    requires
        t > 0,
    ensures
        spec_plausible_gap(2 * t, t),
        !spec_plausible_gap(5 * t, t),
        t % 10 == 0 ==> !spec_plausible_gap(t / 10 * 11, t),
{
    if t % 10 == 0 {
        let q = t / 10;
        assert(t == 10 * q);
        assert(2 * (q * 11) == 22 * q);
    }
}

} // verus!
