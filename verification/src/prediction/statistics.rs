//! How the signals fared.

use vstd::prelude::*;
use crate::double::Double;

verus! {

#[derive(Clone, Copy, Debug, PartialEq, Eq, Structural)]
pub struct PredictionStats {
    pub signals_generated: u64,
    pub signals_won: u64,
    pub signals_lost: u64,
    pub average_confidence: Double,
    pub cumulative_confidence: Double,
}

impl Default for PredictionStats {
    fn default() -> (r: Self)
        ensures
            r == (PredictionStats {
                signals_generated: 0,
                signals_won: 0,
                signals_lost: 0,
                average_confidence: Double::zero_spec(),
                cumulative_confidence: Double::zero_spec(),
            }),
    {
        PredictionStats {
            signals_generated: 0,
            signals_won: 0,
            signals_lost: 0,
            average_confidence: Double::zero(),
            cumulative_confidence: Double::zero(),
        }
    }
}

impl PredictionStats {
    /// Counts a signal, where `cumulative` is the sum of all confidences with this one and
    /// `average` that sum divided by the number of signals with this one.
    pub fn register_signal(&mut self, cumulative: Double, average: Double)
        requires
            old(self).signals_generated < u64::MAX,
        ensures
            *final(self) == (PredictionStats {
                signals_generated: (old(self).signals_generated + 1) as u64,
                cumulative_confidence: cumulative,
                average_confidence: average,
                ..*old(self)
            }),
    {
        self.signals_generated = self.signals_generated + 1;
        self.cumulative_confidence = cumulative;
        self.average_confidence = average;
    }

    /// Counts a signal that was right.
    pub fn register_win(&mut self)
        requires
            old(self).signals_won < u64::MAX,
        ensures
            *final(self) == (PredictionStats {
                signals_won: (old(self).signals_won + 1) as u64,
                ..*old(self)
            }),
    {
        self.signals_won = self.signals_won + 1;
    }

    /// Counts a signal that was wrong.
    pub fn register_loss(&mut self)
        requires
            old(self).signals_lost < u64::MAX,
        ensures
            *final(self) == (PredictionStats {
                signals_lost: (old(self).signals_lost + 1) as u64,
                ..*old(self)
            }),
    {
        self.signals_lost = self.signals_lost + 1;
    }

    /// The rate of right signals as a fraction: signals that were right, and all signals. None
    /// where there was no signal, which counts as a rate of zero.
    pub fn win_rate(&self) -> (r: Option<(u64, u64)>)
        ensures
            r == (if self.signals_generated == 0 {
                None
            } else {
                Some((self.signals_won, self.signals_generated))
            }),
    {
        if self.signals_generated == 0 {
            None
        } else {
            Some((self.signals_won, self.signals_generated))
        }
    }
}

} // verus!
