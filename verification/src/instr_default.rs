//! The classic multi-sample instrument of historical XM modules.

use vstd::prelude::*;

use crate::envelope::Envelope;
use crate::instr_midi::InstrMidi;
use crate::instr_vibrato::InstrVibrato;
use crate::sample::Sample;

verus! {

/// Historical XM instrument.
#[derive(Clone, Debug, PartialEq)]
pub struct InstrDefault {
    /// Maps each of the 96 pitches to a 0-based sample index; always 96
    /// entries, indices clamped to 0 on load when out of range.
    pub sample_for_note: Vec<u8>,
    /// Volume envelope, point values 0..=64.
    pub volume_envelope: Envelope,
    /// Panning envelope, point values 0..=64.
    pub panning_envelope: Envelope,
    /// Automatic vibrato.
    pub vibrato: InstrVibrato,
    /// Volume fadeout rate, raw XM units.
    pub volume_fadeout: u16,
    /// The samples of the instrument.
    pub sample: Vec<Sample>,
    /// MIDI passthrough fields.
    pub midi: InstrMidi,
    /// Mute the computer side when MIDI is on.
    pub midi_mute_computer: bool,
}

impl Default for InstrDefault {
    fn default() -> (r: Self)
        ensures
            r.spec_is_default(),
    {
        let mut sample_for_note: Vec<u8> = Vec::new();
        let mut i: usize = 0;
        while i < 96
            invariant
                i <= 96,
                sample_for_note@.len() == i,
                forall|j: int| 0 <= j < i ==> sample_for_note@[j] == 0,
            decreases 96 - i,
        {
            sample_for_note.push(0);
            i = i + 1;
        }
        InstrDefault {
            sample_for_note,
            volume_envelope: Envelope::default(),
            panning_envelope: Envelope::default(),
            vibrato: InstrVibrato::default(),
            volume_fadeout: 0,
            sample: Vec::new(),
            midi: InstrMidi::default(),
            midi_mute_computer: false,
        }
    }
}

impl InstrDefault {
    /// The empty instrument: silent map, disabled envelopes, no samples.
    pub open spec fn spec_is_default(self) -> bool {
        &&& self.sample_for_note@ =~= Seq::new(96, |i: int| 0u8)
        &&& self.volume_envelope.spec_is_default()
        &&& self.panning_envelope.spec_is_default()
        &&& self.vibrato == InstrVibrato::spec_default()
        &&& self.volume_fadeout == 0
        &&& self.sample@.len() == 0
        &&& self.midi == (InstrMidi { on: false, channel: 0, program: 0, bend: 0 })
        &&& !self.midi_mute_computer
    }

    /// A well-formed instrument maps every one of the 96 pitches to one of
    /// its samples (or to sample 0 when it has none).
    pub open spec fn wf(self) -> bool {
        &&& self.sample_for_note@.len() == 96
        &&& forall|i: int|
            0 <= i < 96 ==> (self.sample_for_note@[i] == 0 || (self.sample_for_note@[i] as nat)
                < self.sample@.len())
    }
}

} // verus!
