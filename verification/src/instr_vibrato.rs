//! Automatic instrument vibrato parameters.

use vstd::prelude::*;

verus! {

/// Vibrato waveform of an instrument's automatic vibrato.
#[derive(Copy, Clone, Debug, PartialEq, Eq, Structural)]
pub enum Waveform {
    /// Sine wave.
    Sine,
    /// Square wave.
    Square,
    /// Rising ramp.
    RampUp,
    /// Falling ramp.
    RampDown,
}

impl Default for Waveform {
    fn default() -> (r: Self)
        ensures
            r == Waveform::Sine,
    {
        Waveform::Sine
    }
}

impl Waveform {
    /// The XM vibrato type byte of a waveform.
    pub open spec fn spec_raw(self) -> u8 {
        match self {
            Waveform::Sine => 0,
            Waveform::Square => 1,
            Waveform::RampUp => 2,
            Waveform::RampDown => 3,
        }
    }

    /// The waveform named by the low two bits of an XM vibrato type byte.
    pub open spec fn spec_from_raw(v: u8) -> Waveform {
        match v & 3 {
            0 => Waveform::Sine,
            1 => Waveform::Square,
            2 => Waveform::RampUp,
            _ => Waveform::RampDown,
        }
    }

    /// The XM vibrato type byte of this waveform.
    pub fn raw(&self) -> (r: u8)
        ensures
            r == self.spec_raw(),
    {
        match *self {
            Waveform::Sine => 0,
            Waveform::Square => 1,
            Waveform::RampUp => 2,
            Waveform::RampDown => 3,
        }
    }

    /// Recover a waveform from an XM vibrato type byte; only the low two
    /// bits matter.
    pub fn from_raw(v: u8) -> (r: Waveform)
        ensures
            r == Waveform::spec_from_raw(v),
    {
        match v & 3 {
            0 => Waveform::Sine,
            1 => Waveform::Square,
            2 => Waveform::RampUp,
            _ => Waveform::RampDown,
        }
    }
}

/// Instrument vibrato, in the raw byte units of the XM instrument block.
#[derive(Copy, Clone, Debug, PartialEq, Eq, Structural)]
pub struct InstrVibrato {
    /// The waveform swept.
    pub waveform: Waveform,
    /// Vibrato rate.
    pub speed: u8,
    /// Vibrato depth.
    pub depth: u8,
    /// Frames before the vibrato reaches full depth.
    pub sweep: u8,
}

impl Default for InstrVibrato {
    fn default() -> (r: Self)
        ensures
            r == InstrVibrato::spec_default(),
    {
        InstrVibrato { waveform: Waveform::Sine, speed: 0, depth: 0, sweep: 0 }
    }
}

impl InstrVibrato {
    /// The inert vibrato.
    pub open spec fn spec_default() -> InstrVibrato {
        InstrVibrato { waveform: Waveform::Sine, speed: 0, depth: 0, sweep: 0 }
    }
}

} // verus!
