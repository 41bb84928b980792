//! MOS6581 SID chip voice and instrument descriptors, consumed only.

use vstd::prelude::*;

verus! {

/// MOS6581 SID voice.
///
/// Synchronize and ring modulation sources: voice 0 from voice 2, voice 1
/// from voice 0, voice 2 from voice 1.
#[derive(Copy, Clone, Debug, PartialEq, Eq, Structural)]
pub struct SidVoice {
    /// Pulse wave duty cycle.
    pub pw: u16,
    /// Control bit 7.
    pub ctrl_noise: bool,
    /// Control bit 6.
    pub ctrl_pulse: bool,
    /// Control bit 5.
    pub ctrl_sawtooth: bool,
    /// Control bit 4.
    pub ctrl_triangle: bool,
    /// Control bit 3.
    pub ctrl_test: bool,
    /// Control bit 2: ring modulation.
    pub ctrl_rm: bool,
    /// Control bit 1: synchronize.
    pub ctrl_sync: bool,
    /// Control bit 0: gate.
    pub ctrl_gate: bool,
    /// Attack in the high nibble, decay in the low nibble.
    pub ad: u8,
    /// Sustain in the high nibble, release in the low nibble.
    pub sr: u8,
}

impl Default for SidVoice {
    fn default() -> (r: Self)
        ensures
            r == SidVoice::spec_default(),
    {
        SidVoice {
            pw: 0,
            ctrl_noise: false,
            ctrl_pulse: false,
            ctrl_sawtooth: false,
            ctrl_triangle: false,
            ctrl_test: false,
            ctrl_rm: false,
            ctrl_sync: false,
            ctrl_gate: false,
            ad: 0,
            sr: 0,
        }
    }
}

impl SidVoice {
    /// The silent voice with every control bit clear.
    pub open spec fn spec_default() -> SidVoice {
        SidVoice {
            pw: 0,
            ctrl_noise: false,
            ctrl_pulse: false,
            ctrl_sawtooth: false,
            ctrl_triangle: false,
            ctrl_test: false,
            ctrl_rm: false,
            ctrl_sync: false,
            ctrl_gate: false,
            ad: 0,
            sr: 0,
        }
    }

    /// Set every control flag whose bit is on in `ctrl`; flags whose bit is
    /// off keep their old value.
    #[verifier::rlimit(60)]
    pub fn update_from_ctrl_register(&mut self, ctrl: u8)
        ensures
            final (self).pw == old(self).pw,
            final (self).ad == old(self).ad,
            final (self).sr == old(self).sr,
            final (self).ctrl_noise == (old(self).ctrl_noise || ctrl & 0b1000_0000 != 0),
            final (self).ctrl_pulse == (old(self).ctrl_pulse || ctrl & 0b0100_0000 != 0),
            final (self).ctrl_sawtooth == (old(self).ctrl_sawtooth || ctrl & 0b0010_0000 != 0),
            final (self).ctrl_triangle == (old(self).ctrl_triangle || ctrl & 0b0001_0000 != 0),
            final (self).ctrl_test == (old(self).ctrl_test || ctrl & 0b0000_1000 != 0),
            final (self).ctrl_rm == (old(self).ctrl_rm || ctrl & 0b0000_0100 != 0),
            final (self).ctrl_sync == (old(self).ctrl_sync || ctrl & 0b0000_0010 != 0),
            final (self).ctrl_gate == (old(self).ctrl_gate || ctrl & 0b0000_0001 != 0),
    {
        if ctrl & 0b1000_0000 != 0 {
            self.ctrl_noise = true;
        }
        if ctrl & 0b0100_0000 != 0 {
            self.ctrl_pulse = true;
        }
        if ctrl & 0b0010_0000 != 0 {
            self.ctrl_sawtooth = true;
        }
        if ctrl & 0b0001_0000 != 0 {
            self.ctrl_triangle = true;
        }
        if ctrl & 0b0000_1000 != 0 {
            self.ctrl_test = true;
        }
        if ctrl & 0b0000_0100 != 0 {
            self.ctrl_rm = true;
        }
        if ctrl & 0b0000_0010 != 0 {
            self.ctrl_sync = true;
        }
        if ctrl & 0b0000_0001 != 0 {
            self.ctrl_gate = true;
        }
    }
}

/// MOS6581 SID instrument: three voices and the common filter block.
#[derive(Clone, Debug, PartialEq)]
pub struct InstrSid {
    /// The three voices.
    pub voice: Vec<SidVoice>,
    /// Filter cutoff frequency, 0..=2047.
    pub fc: u16,
    /// Filter resonance, 0..=15.
    pub filter_resonance: u8,
    /// Which voices pass the filter; index 3 is the external input.
    pub filter_gate: Vec<bool>,
    /// Low-pass filter on.
    pub low_pass: bool,
    /// Band-pass filter on.
    pub band_pass: bool,
    /// High-pass filter on.
    pub high_pass: bool,
    /// Silence voice 3.
    pub mute_voice3: bool,
    /// Main volume, 0..=15.
    pub main_volume: u8,
}

impl Default for InstrSid {
    fn default() -> (r: Self)
        ensures
            r.spec_is_default(),
    {
        let mut voice: Vec<SidVoice> = Vec::new();
        voice.push(SidVoice::default());
        voice.push(SidVoice::default());
        voice.push(SidVoice::default());
        let mut filter_gate: Vec<bool> = Vec::new();
        filter_gate.push(false);
        filter_gate.push(false);
        filter_gate.push(false);
        filter_gate.push(false);
        InstrSid {
            voice,
            fc: 0,
            filter_resonance: 0,
            filter_gate,
            low_pass: false,
            band_pass: false,
            high_pass: false,
            mute_voice3: false,
            main_volume: 15,
        }
    }
}

impl InstrSid {
    /// Three silent voices, no filtering, full volume.
    pub open spec fn spec_is_default(self) -> bool {
        &&& self.voice@ =~= seq![
            SidVoice::spec_default(),
            SidVoice::spec_default(),
            SidVoice::spec_default(),
        ]
        &&& self.fc == 0
        &&& self.filter_resonance == 0
        &&& self.filter_gate@ =~= seq![false, false, false, false]
        &&& !self.low_pass
        &&& !self.band_pass
        &&& !self.high_pass
        &&& !self.mute_voice3
        &&& self.main_volume == 15
    }

    /// A well-formed SID instrument holds exactly 3 voices and 4 filter
    /// gates.
    pub open spec fn wf(self) -> bool {
        self.voice@.len() == 3 && self.filter_gate@.len() == 4
    }
}

} // verus!
