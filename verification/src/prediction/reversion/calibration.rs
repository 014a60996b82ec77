//! Calibration: how often a predicted reversion came, by tenths of the predicted chance.

use vstd::prelude::*;
use crate::double::Double;

verus! {

/// The outcomes of one tenth.
#[derive(Clone, Copy, Debug, PartialEq, Eq, Structural)]
pub struct CalibrationBin {
    /// The predicted chances, added up.
    pub sum_predicted: Double,
    /// The number of predictions that came true.
    pub reverted: u64,
    /// The number of predictions.
    pub count: u64,
}

impl CalibrationBin {
    /// A bin without outcomes.
    pub open spec fn empty() -> CalibrationBin {
        CalibrationBin { sum_predicted: Double::zero_spec(), reverted: 0, count: 0 }
    }

    /// Not more predictions came true than were made.
    pub open spec fn wf(self) -> bool {
        self.reverted <= self.count
    }
}

/// The whole numbers from one to nine.
pub open spec fn whole(n: int) -> Double {
    if n == 1 {
        Double { bits: 0x3ff0_0000_0000_0000 }
    } else if n == 2 {
        Double { bits: 0x4000_0000_0000_0000 }
    } else if n == 3 {
        Double { bits: 0x4008_0000_0000_0000 }
    } else if n == 4 {
        Double { bits: 0x4010_0000_0000_0000 }
    } else if n == 5 {
        Double { bits: 0x4014_0000_0000_0000 }
    } else if n == 6 {
        Double { bits: 0x4018_0000_0000_0000 }
    } else if n == 7 {
        Double { bits: 0x401c_0000_0000_0000 }
    } else if n == 8 {
        Double { bits: 0x4020_0000_0000_0000 }
    } else {
        Double { bits: 0x4022_0000_0000_0000 }
    }
}

/// The bin of a chance, where `scaled` is ten times that chance: the largest whole number up to
/// nine that it reaches, and zero where it reaches none.
pub fn bin_of(scaled: Double) -> (r: usize)
    ensures
        r < 10,
        r > 0 ==> whole(r as int).at_most(scaled),
        forall|n: int| r < n <= 9 ==> !(#[trigger] whole(n)).at_most(scaled),
{
    if (Double { bits: 0x4022_0000_0000_0000 }).le(scaled) {
        9
    } else if (Double { bits: 0x4020_0000_0000_0000 }).le(scaled) {
        8
    } else if (Double { bits: 0x401c_0000_0000_0000 }).le(scaled) {
        7
    } else if (Double { bits: 0x4018_0000_0000_0000 }).le(scaled) {
        6
    } else if (Double { bits: 0x4014_0000_0000_0000 }).le(scaled) {
        5
    } else if (Double { bits: 0x4010_0000_0000_0000 }).le(scaled) {
        4
    } else if (Double { bits: 0x4008_0000_0000_0000 }).le(scaled) {
        3
    } else if (Double { bits: 0x4000_0000_0000_0000 }).le(scaled) {
        2
    } else if (Double { bits: 0x3ff0_0000_0000_0000 }).le(scaled) {
        1
    } else {
        0
    }
}

#[derive(Debug)]
pub struct IsotonicCalibrator {
    pub bins: Vec<CalibrationBin>,
}

impl IsotonicCalibrator {
    /// Ten bins, each well-formed.
    pub open spec fn wf(self) -> bool {
        self.bins@.len() == 10 && forall|i: int| 0 <= i < 10 ==> (#[trigger] self.bins@[i]).wf()
    }

    /// A calibrator without outcomes.
    pub fn new() -> (r: Self)
        ensures
            r.wf(),
            forall|i: int| 0 <= i < 10 ==> (#[trigger] r.bins@[i]) == CalibrationBin::empty(),
    {
        let mut bins: Vec<CalibrationBin> = Vec::new();
        let mut i: usize = 0;
        while i < 10
            invariant
                i <= 10,
                bins@.len() == i,
                forall|k: int| 0 <= k < i ==> (#[trigger] bins@[k]) == CalibrationBin::empty(),
            decreases 10 - i,
        {
            bins.push(CalibrationBin { sum_predicted: Double::zero(), reverted: 0, count: 0 });
            i = i + 1;
        }
        IsotonicCalibrator { bins }
    }

    /// Counts an outcome in a bin ([`bin_of`] the predicted chance), where `sum` is the bin's
    /// sum with that chance.
    pub fn update(&mut self, bin: usize, sum: Double, did_revert: bool)
        requires
            old(self).wf(),
            bin < 10,
            old(self).bins@[bin as int].count < u64::MAX,
        ensures
            final(self).wf(),
            final(self).bins@ == old(self).bins@.update(
                bin as int,
                CalibrationBin {
                    sum_predicted: sum,
                    reverted: (old(self).bins@[bin as int].reverted + (if did_revert {
                        1int
                    } else {
                        0int
                    })) as u64,
                    count: (old(self).bins@[bin as int].count + 1) as u64,
                },
            ),
    {
        let b = self.bins[bin];
        assert(old(self).bins@[bin as int].wf());
        let reverted: u64 = if did_revert {
            b.reverted + 1
        } else {
            b.reverted
        };
        self.bins.set(bin, CalibrationBin { sum_predicted: sum, reverted, count: b.count + 1 });
    }

    /// The calibrated chance: the raw one while its bin has fewer than ten outcomes, and else
    /// `blended`, which the caller makes of the raw one and the bin's rate.
    pub fn calibrate(&self, bin: usize, raw: Double, blended: Double) -> (r: Double)
        requires
            self.wf(),
            bin < 10,
        ensures
            r == (if self.bins@[bin as int].count < 10 { raw } else { blended }),
    {
        if self.bins[bin].count < 10 {
            raw
        } else {
            blended
        }
    }
}

/// Doubles of larger whole numbers are larger, from one on to nine: twice a number has the next
/// exponent, and within one exponent they are evenly spaced.
pub proof fn law_whole_numbers_rise(m: int, n: int)
    requires
        1 <= m < n <= 9,
    ensures
        whole(m).below(whole(n)),
        whole(1).bits == 0x3ff0_0000_0000_0000,
        2 * m <= 9 ==> whole(2 * m).bits == whole(m).bits + 0x0010_0000_0000_0000,
        2 <= m < n <= 4 ==> whole(n).bits - whole(m).bits == (n - m) * 0x0008_0000_0000_0000,
        4 <= m < n <= 8 ==> whole(n).bits - whole(m).bits == (n - m) * 0x0004_0000_0000_0000,
        m == 8 && n == 9 ==> whole(n).bits - whole(m).bits == 0x0002_0000_0000_0000,
{
}

/// A bin without outcomes counts nothing.
pub proof fn law_empty_bin_counts_nothing()
    ensures
        CalibrationBin::empty().count == 0,
        CalibrationBin::empty().reverted == 0,
        CalibrationBin::empty().sum_predicted.bits == 0,
{
}

} // verus!
