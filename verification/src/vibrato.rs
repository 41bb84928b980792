//! Channel vibrato parameters used while playing effects.

use vstd::prelude::*;

verus! {

/// Vibrato waveform of the channel vibrato effect.
#[derive(Copy, Clone, Debug, PartialEq, Eq, Structural)]
pub enum Waveform {
    /// Sine wave.
    Sine,
    /// Falling ramp.
    RampDown,
    /// Square wave.
    Square,
    /// A random value each step.
    Random,
    /// Rising ramp.
    RampUp,
}

impl Default for Waveform {
    fn default() -> (r: Self)
        ensures
            r == Waveform::Sine,
    {
        Waveform::Sine
    }
}

impl Waveform {
    /// The raw byte of a waveform, as stored by trackers.
    pub open spec fn spec_raw(self) -> u8 {
        match self {
            Waveform::Sine => 0,
            Waveform::RampDown => 1,
            Waveform::Square => 2,
            Waveform::Random => 3,
            Waveform::RampUp => 4,
        }
    }

    /// The raw byte of this waveform.
    pub fn raw(&self) -> (r: u8)
        ensures
            r == self.spec_raw(),
    {
        match *self {
            Waveform::Sine => 0,
            Waveform::RampDown => 1,
            Waveform::Square => 2,
            Waveform::Random => 3,
            Waveform::RampUp => 4,
        }
    }
}

/// Channel vibrato parameters, in raw tracker units.
#[derive(Copy, Clone, Debug, PartialEq, Eq, Structural)]
pub struct Vibrato {
    /// The waveform swept.
    pub waveform: Waveform,
    /// Speed, 0..=0x3F.
    pub speed: u8,
    /// Depth, 0..=64.
    pub depth: u8,
    /// Sweep, 0..=0xFF.
    pub sweep: u8,
}

impl Default for Vibrato {
    fn default() -> (r: Self)
        ensures
            r == (Vibrato { waveform: Waveform::Sine, speed: 0, depth: 0, sweep: 0 }),
    {
        Vibrato { waveform: Waveform::Sine, speed: 0, depth: 0, sweep: 0 }
    }
}

} // verus!
