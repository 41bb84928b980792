//! Rob Hubbard SID instrument: a SID voice plus the player's effect flags.

use vstd::prelude::*;

use crate::instr_sid::InstrSid;

verus! {

/// Rob Hubbard player effects of one voice.
#[derive(Copy, Clone, Debug, PartialEq, Eq, Structural)]
pub struct RobEffects {
    /// Vibrato on.
    pub vibrato: bool,
    /// Vibrato depth.
    pub vibrato_depth: u8,
    /// Vibrato divisor.
    pub vibrato_div: u8,
    /// Pulse width sweep on.
    pub pw: bool,
    /// Pulse width sweep speed.
    pub pw_speed: i8,
    /// Pulse width sweep delay.
    pub pw_delay: u16,
    /// Drum effect on.
    pub drum: bool,
    /// Skydive effect on.
    pub skydive: bool,
    /// Skydive trigger length.
    pub skydive_config_if: u8,
    /// Skydive frequency step.
    pub skydive_config_add: u8,
    /// Arpeggio on.
    pub arpeggio: bool,
    /// Arpeggio reset mask.
    pub arpeggio_reset_mask: u8,
}

impl Default for RobEffects {
    fn default() -> (r: Self)
        ensures
            r == RobEffects::spec_default(),
    {
        RobEffects {
            vibrato: false,
            vibrato_depth: 0,
            vibrato_div: 0,
            pw: false,
            pw_speed: 0,
            pw_delay: 0,
            drum: false,
            skydive: false,
            skydive_config_if: 0,
            skydive_config_add: 0,
            arpeggio: false,
            arpeggio_reset_mask: 0,
        }
    }
}

impl RobEffects {
    /// All effects off.
    pub open spec fn spec_default() -> RobEffects {
        RobEffects {
            vibrato: false,
            vibrato_depth: 0,
            vibrato_div: 0,
            pw: false,
            pw_speed: 0,
            pw_delay: 0,
            drum: false,
            skydive: false,
            skydive_config_if: 0,
            skydive_config_add: 0,
            arpeggio: false,
            arpeggio_reset_mask: 0,
        }
    }
}

/// Rob Hubbard generalized instrument: a SID block and one effect set per
/// voice.
#[derive(Clone, Debug, PartialEq)]
pub struct InstrRobSid {
    /// The SID registers.
    pub sid: InstrSid,
    /// Player effects, one entry per voice.
    pub fx: Vec<RobEffects>,
}

impl Default for InstrRobSid {
    fn default() -> (r: Self)
        ensures
            r.sid.spec_is_default(),
            r.fx@ =~= seq![
                RobEffects::spec_default(),
                RobEffects::spec_default(),
                RobEffects::spec_default(),
            ],
    {
        let mut fx: Vec<RobEffects> = Vec::new();
        fx.push(RobEffects::default());
        fx.push(RobEffects::default());
        fx.push(RobEffects::default());
        InstrRobSid { sid: InstrSid::default(), fx }
    }
}

impl InstrRobSid {
    /// A well-formed Rob Hubbard instrument holds one effect set per voice.
    pub open spec fn wf(self) -> bool {
        self.sid.wf() && self.fx@.len() == 3
    }
}

} // verus!
