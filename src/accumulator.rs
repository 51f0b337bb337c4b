//! The sample accumulator: raw analog samples summed over a window, and the window's mean
//! clamped to the usable sensor range and rescaled to [0, UNIT].
use vstd::prelude::*;

use crate::hsv_rgb_convert::UNIT;

verus! {

/// Full scale of the analog converter.
pub const MAX_ADC_VALUE: u32 = 16383;

/// Lower bound of the usable range: means below it are sensor-rail noise.
pub const MIN_ADC_THRESHOLD: u32 = 10;

/// Upper bound of the usable range: 98% of full scale, rounded down.
pub const MAX_ADC_THRESHOLD: u32 = 16055;

/// Width of the usable range.
pub const ADC_SPAN: u32 = MAX_ADC_THRESHOLD - MIN_ADC_THRESHOLD;

/// Largest value a raw sample can carry.
pub const MAX_SAMPLE: u32 = 32767;

/// A raw reading with a negative value read as zero.
pub open spec fn sample_value(raw: int) -> int {
    if raw < 0 {
        0
    } else {
        raw
    }
}

/// `count` times the window's mean `sum / count`, clamped into
/// [MIN_ADC_THRESHOLD, MAX_ADC_THRESHOLD].
pub open spec fn clamped_total(sum: int, count: int) -> int {
    if sum < MIN_ADC_THRESHOLD * count {
        MIN_ADC_THRESHOLD * count
    } else if sum > MAX_ADC_THRESHOLD * count {
        MAX_ADC_THRESHOLD * count
    } else {
        sum
    }
}

/// The window's level: its mean `sum / count`, clamped into the usable range, then rescaled
/// linearly so that the range maps onto [0, UNIT], rounded down.
pub open spec fn window_level(sum: int, count: int) -> int {
    (clamped_total(sum, count) - MIN_ADC_THRESHOLD * count) * UNIT / (count * ADC_SPAN)
}

/// The level is the rescaled clamped mean, rounded down: with `mean = sum / count` between the
/// thresholds, `level <= UNIT * (mean - MIN) / (MAX - MIN) < level + 1`. A mean at or below the
/// lower threshold gives 0, and one at or above the upper threshold gives UNIT.
pub proof fn lemma_window_level(sum: int, count: int)
    requires
        count > 0,
        sum >= 0,
    ensures
        0 <= window_level(sum, count) <= UNIT,
        MIN_ADC_THRESHOLD * count <= sum <= MAX_ADC_THRESHOLD * count ==> {
            &&& window_level(sum, count) * (count * ADC_SPAN) <= (sum - MIN_ADC_THRESHOLD * count)
                * UNIT
            &&& (sum - MIN_ADC_THRESHOLD * count) * UNIT < (window_level(sum, count) + 1) * (
            count * ADC_SPAN)
        },
        sum <= MIN_ADC_THRESHOLD * count ==> window_level(sum, count) == 0,
        sum >= MAX_ADC_THRESHOLD * count ==> window_level(sum, count) == UNIT,
{
    let d = count * ADC_SPAN;
    let a = (clamped_total(sum, count) - MIN_ADC_THRESHOLD * count) * UNIT;
    assert(ADC_SPAN == 16045);
    assert(d > 0);
    assert(0 <= clamped_total(sum, count) - MIN_ADC_THRESHOLD * count <= d);
    assert(0 <= a <= UNIT * d);
    assert(0 <= a / d <= UNIT) by (nonlinear_arith)
        requires
            0 <= a <= UNIT * d,
            d > 0,
    ;
    assert(a / d * d <= a < (a / d + 1) * d) by (nonlinear_arith)
        requires
            d > 0,
            a >= 0,
    ;
    if sum >= MAX_ADC_THRESHOLD * count {
        assert(clamped_total(sum, count) - MIN_ADC_THRESHOLD * count == d);
        assert(a == UNIT * d);
        assert(a / d == UNIT) by (nonlinear_arith)
            requires
                a == UNIT * d,
                d > 0,
        ;
    }
}

/// A window of samples that are all zero (or negative) has level 0.
pub proof fn lemma_zero_window(count: int)
    requires
        count > 0,
    ensures
        window_level(0, count) == 0,
{
    lemma_window_level(0, count);
}

/// The running sum and count of the samples of the current window.
pub struct Accumulator {
    sum: u64,
    count: u32,
}

impl Accumulator {
    /// Sum of the window's samples.
    pub closed spec fn total(self) -> int {
        self.sum as int
    }

    /// Number of the window's samples.
    pub closed spec fn samples(self) -> int {
        self.count as int
    }

    /// No sample exceeds `MAX_SAMPLE`, so the sum stays within `count * MAX_SAMPLE`.
    pub open spec fn wf(self) -> bool {
        0 <= self.total() <= self.samples() * MAX_SAMPLE
    }

    /// An empty window.
    pub fn new() -> (r: Self)
        ensures
            r.wf(),
            r.total() == 0,
            r.samples() == 0,
    {
        Accumulator { sum: 0, count: 0 }
    }

    /// Adds one raw sample, a negative one read as zero. Once the count has reached
    /// `u32::MAX` the window takes no more samples.
    pub fn add_sample(&mut self, raw: i16)
        requires
            old(self).wf(),
        ensures
            final(self).wf(),
            old(self).samples() < u32::MAX ==> final(self).total() == old(self).total()
                + sample_value(raw as int) && final(self).samples() == old(self).samples() + 1,
            old(self).samples() == u32::MAX ==> *final(self) == *old(self),
    {
        if self.count < u32::MAX {
            let value: u64 = if raw < 0 {
                0
            } else {
                raw as u64
            };
            assert(self.sum + value <= (self.count + 1) * MAX_SAMPLE) by (nonlinear_arith)
                requires
                    self.sum <= self.count * MAX_SAMPLE,
                    value <= MAX_SAMPLE,
            ;
            assert((self.count + 1) * MAX_SAMPLE <= u32::MAX * MAX_SAMPLE) by (nonlinear_arith)
                requires
                    self.count < u32::MAX,
            ;
            self.sum = self.sum + value;
            self.count = self.count + 1;
        }
    }

    /// Closes the window: the level of its samples (`None` for a window without samples),
    /// and the sum and count reset to zero.
    pub fn close_window(&mut self) -> (level: Option<u32>)
        requires
            old(self).wf(),
        ensures
            final(self).wf(),
            final(self).total() == 0,
            final(self).samples() == 0,
            old(self).samples() == 0 ==> level.is_none(),
            level matches Some(l) ==> l <= UNIT,
            old(self).samples() > 0 ==> level == Some(
                window_level(old(self).total(), old(self).samples()) as u32,
            ),
    {
        let total = self.sum;
        let count = self.count;
        self.sum = 0;
        self.count = 0;
        if count == 0 {
            return None;
        }
        proof {
            lemma_window_level(total as int, count as int);
        }
        let n = count as u128;
        let low = (MIN_ADC_THRESHOLD as u128) * n;
        let high = (MAX_ADC_THRESHOLD as u128) * n;
        let mut average = total as u128;
        if average < low {
            average = low;
        } else if average > high {
            average = high;
        }
        let level = (average - low) * (UNIT as u128) / (n * (ADC_SPAN as u128));
        Some(level as u32)
    }
}

} // verus!
