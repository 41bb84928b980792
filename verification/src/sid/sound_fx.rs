//! A sound-effect record of the Rob Hubbard player.

use vstd::prelude::*;

use crate::instr_sid::SidVoice;

verus! {

/// One sound effect: a frequency ramp over two voices.
#[derive(Copy, Clone, Debug, PartialEq, Eq, Structural)]
pub struct SoundFx {
    /// Ramp the frequency only once the counter ends.
    pub incdec_start_at_end: bool,
    /// Signed ramp counter.
    pub incdec_counter: i8,
    /// First note of the effect.
    pub note_start: u8,
    /// Note step per frame.
    pub note_delta: u8,
    /// Last note of the effect.
    pub note_end: u8,
    /// Toggle voice 1 control each frame.
    pub flipflop_voice1_ctrl: bool,
    /// Gate voice 0.
    pub voice0_ctrl: bool,
    /// Gate voice 1.
    pub voice1_ctrl: bool,
    /// Voice 0 registers.
    pub voice0: SidVoice,
    /// Voice 1 registers.
    pub voice1: SidVoice,
}

} // verus!
