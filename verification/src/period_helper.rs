//! Selection of the historical pitch model.
//!
//! The floating-point conversions between note, period and frequency are
//! host-side concerns; the library itself only records which of the two
//! historical models applies to a module.

use vstd::prelude::*;

verus! {

/// Historical frequency models used by old tracker data.
#[derive(Copy, Clone, Debug, PartialEq, Eq, Structural)]
pub enum FrequencyType {
    /// The Amiga logarithmic-period model.
    AmigaFrequencies,
    /// The linear model of Fast Tracker 2.
    LinearFrequencies,
}

impl Default for FrequencyType {
    fn default() -> (r: Self)
        ensures
            r == FrequencyType::LinearFrequencies,
    {
        FrequencyType::LinearFrequencies
    }
}

/// Carries the pitch model of a module together with the historical-player
/// compatibility switch for arpeggio clamping.
#[derive(Copy, Clone, Debug, PartialEq, Eq, Structural)]
pub struct PeriodHelper {
    /// Which pitch model applies.
    pub freq_type: FrequencyType,
    /// Reproduce the note overflow of historical players.
    pub historical: bool,
}

impl Default for PeriodHelper {
    fn default() -> (r: Self)
        ensures
            r == (PeriodHelper { freq_type: FrequencyType::LinearFrequencies, historical: false }),
    {
        PeriodHelper { freq_type: FrequencyType::LinearFrequencies, historical: false }
    }
}

impl PeriodHelper {
    /// Remember a pitch model and compatibility switch.
    pub fn new(freq_type: FrequencyType, historical: bool) -> (r: Self)
        ensures
            r.freq_type == freq_type,
            r.historical == historical,
    {
        PeriodHelper { freq_type, historical }
    }
}

} // verus!
