//! Euclidian rhythm instrument: parameters of a rhythmic generator.

use vstd::prelude::*;

verus! {

/// Euclidian rhythm instrument.
#[derive(Copy, Clone, Debug, PartialEq, Eq, Structural)]
pub struct InstrEkn {
    /// Pulsation k.
    pub events: u8,
    /// Duration n.
    pub steps: u8,
    /// Rotation.
    pub rotation: u8,
    /// Instrument number.
    pub instr: u8,
}

impl Default for InstrEkn {
    fn default() -> (r: Self)
        ensures
            r == (InstrEkn { events: 3, steps: 8, rotation: 0, instr: 0 }),
    {
        InstrEkn { events: 3, steps: 8, rotation: 0, instr: 0 }
    }
}

} // verus!
