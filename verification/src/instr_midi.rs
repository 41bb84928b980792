//! External MIDI passthrough descriptor.

use vstd::prelude::*;

verus! {

/// Midi instrument.
#[derive(Copy, Clone, Debug, PartialEq, Eq, Structural)]
pub struct InstrMidi {
    /// Whether MIDI output is on.
    pub on: bool,
    /// MIDI channel.
    pub channel: u8,
    /// MIDI program number.
    pub program: u16,
    /// Pitch bend range.
    pub bend: u16,
}

impl Default for InstrMidi {
    fn default() -> (r: Self)
        ensures
            r == (InstrMidi { on: false, channel: 0, program: 0, bend: 0 }),
    {
        InstrMidi { on: false, channel: 0, program: 0, bend: 0 }
    }
}

} // verus!
