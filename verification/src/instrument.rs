//! An instrument of the unified representation: a name and one of a closed
//! set of instrument kinds.

use vstd::prelude::*;

use crate::instr_default::InstrDefault;
use crate::instr_ekn::InstrEkn;
use crate::instr_midi::InstrMidi;
use crate::instr_opl::InstrOpl;
use crate::instr_robsid::InstrRobSid;
use crate::instr_sid::InstrSid;

verus! {

/// Instrument kind.
#[derive(Clone, Debug, PartialEq)]
pub enum InstrumentType {
    /// No instrument.
    Empty,
    /// Historical XM multi-sample instrument.
    Classic(InstrDefault),
    /// Euclidian rhythm instrument.
    Euclidian(InstrEkn),
    /// Midi instrument.
    Midi(InstrMidi),
    /// MOS6581 SID voice, consumed only.
    Sid(InstrSid),
    /// Rob Hubbard SID instrument, consumed only.
    RobSid(InstrRobSid),
    /// Yamaha OPL register block, stored and forwarded only.
    Opl(InstrOpl),
}

/// An instrument: a name and its kind.
#[derive(Clone, Debug, PartialEq)]
pub struct Instrument {
    /// Name of the instrument.
    pub name: String,
    /// What the instrument is.
    pub instr_type: InstrumentType,
    /// Whether a player should skip this instrument.
    pub muted: bool,
}

impl Default for Instrument {
    fn default() -> (r: Self)
        ensures
            r.name@.len() == 0,
            r.instr_type is Empty,
            !r.muted,
    {
        Instrument { name: String::new(), instr_type: InstrumentType::Empty, muted: false }
    }
}

} // verus!
