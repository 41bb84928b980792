//! Yamaha OPL (FM synthesis) register block, stored and forwarded opaquely.

use vstd::prelude::*;

verus! {

/// Register values of one OPL operator.
#[derive(Copy, Clone, Debug, PartialEq, Eq, Structural)]
pub struct MdiOpl {
    /// 2 bits, key scaling level.
    pub ksl: u8,
    /// 4 bits, frequency multiplier.
    pub multiple: u8,
    /// 3 bits, operator 0 only.
    pub feedback: u8,
    /// 4 bits.
    pub attack: u8,
    /// 4 bits.
    pub sustain: u8,
    /// Envelope gain.
    pub eg: bool,
    /// 4 bits.
    pub decay: u8,
    /// 4 bits.
    pub release: u8,
    /// 6 bits, 0 is loudest and 63 silent.
    pub total_level: u8,
    /// Amplitude modulation (tremolo).
    pub am: bool,
    /// Frequency vibrato.
    pub vib: bool,
    /// Key scaling of the envelope rate.
    pub ksr: bool,
    /// Connection bit.
    pub con: bool,
}

impl Default for MdiOpl {
    fn default() -> (r: Self)
        ensures
            r == MdiOpl::spec_default(),
    {
        MdiOpl {
            ksl: 0,
            multiple: 0,
            feedback: 0,
            attack: 0,
            sustain: 0,
            eg: false,
            decay: 0,
            release: 0,
            total_level: 0,
            am: false,
            vib: false,
            ksr: false,
            con: false,
        }
    }
}

impl MdiOpl {
    /// The all-zero register block.
    pub open spec fn spec_default() -> MdiOpl {
        MdiOpl {
            ksl: 0,
            multiple: 0,
            feedback: 0,
            attack: 0,
            sustain: 0,
            eg: false,
            decay: 0,
            release: 0,
            total_level: 0,
            am: false,
            vib: false,
            ksr: false,
            con: false,
        }
    }
}

/// Register values for a modulator and carrier operator pair.
#[derive(Copy, Clone, Debug, PartialEq, Eq, Structural)]
pub struct MdiInstr {
    /// Register values for the modulator operator (op 0).
    pub modulator: MdiOpl,
    /// Register values for the carrier operator (op 1).
    pub carrier: MdiOpl,
    /// Wave selection register of the modulator.
    pub modulator_wave_select: u8,
    /// Wave selection register of the carrier.
    pub carrier_wave_select: u8,
}

impl Default for MdiInstr {
    fn default() -> (r: Self)
        ensures
            r == MdiInstr::spec_default(),
    {
        MdiInstr {
            modulator: MdiOpl::default(),
            carrier: MdiOpl::default(),
            modulator_wave_select: 0,
            carrier_wave_select: 0,
        }
    }
}

impl MdiInstr {
    /// The all-zero operator pair.
    pub open spec fn spec_default() -> MdiInstr {
        MdiInstr {
            modulator: MdiOpl::spec_default(),
            carrier: MdiOpl::spec_default(),
            modulator_wave_select: 0,
            carrier_wave_select: 0,
        }
    }
}

/// An OPL instrument with module compatibility fields.
#[derive(Copy, Clone, Debug, PartialEq, Eq, Structural)]
pub struct InstrOpl {
    /// The FM register block.
    pub element: MdiInstr,
    /// Volume, 0..=63.
    pub volume: u8,
    /// Finetune in 1/128 semitone steps, -128..=127.
    pub finetune: i8,
    /// Semitone offset from C-4, -96..=95.
    pub relative_note: i8,
}

impl Default for InstrOpl {
    fn default() -> (r: Self)
        ensures
            r == InstrOpl::spec_default(),
    {
        InstrOpl { element: MdiInstr::default(), volume: 0, finetune: 0, relative_note: 0 }
    }
}

impl InstrOpl {
    /// The all-zero OPL instrument.
    pub open spec fn spec_default() -> InstrOpl {
        InstrOpl { element: MdiInstr::spec_default(), volume: 0, finetune: 0, relative_note: 0 }
    }
}

} // verus!
