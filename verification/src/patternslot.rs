//! One cell of one channel in one row of a pattern.

use vstd::prelude::*;

use crate::note::Note;

verus! {

/// A typical pattern slot.
///
/// Equality is structural; patterns are de-duplicated by comparing slots.
#[derive(Copy, Clone, Debug, PartialEq, Eq, Structural)]
pub struct PatternSlot {
    /// The note of the cell.
    pub note: Note,
    /// 0: none, 1..=128: 1-based instrument index.
    pub instrument: u8,
    /// 0: none, 1..=64: volume level, 65..: special command encoded in the
    /// high nibble.
    pub volume: u8,
    /// Effect number.
    pub effect_type: u8,
    /// Effect argument.
    pub effect_parameter: u8,
}

impl Default for PatternSlot {
    fn default() -> (r: Self)
        ensures
            r == PatternSlot::spec_default(),
    {
        PatternSlot {
            note: Note::Empty,
            instrument: 0,
            volume: 0,
            effect_type: 0,
            effect_parameter: 0,
        }
    }
}

impl PatternSlot {
    /// The all-empty cell: no note, no instrument, no volume, no effect.
    pub open spec fn spec_default() -> PatternSlot {
        PatternSlot {
            note: Note::Empty,
            instrument: 0,
            volume: 0,
            effect_type: 0,
            effect_parameter: 0,
        }
    }

    /// An arpeggio is effect 0 with a non-zero argument.
    pub fn has_arpeggio(&self) -> (r: bool)
        ensures
            r == (self.effect_type == 0 && self.effect_parameter != 0),
    {
        self.effect_type == 0 && self.effect_parameter != 0
    }

    /// A note delay is effect 0xE with sub-command 0xD.
    pub fn has_note_delay(&self) -> (r: bool)
        ensures
            r == (self.effect_type == 0xE && self.effect_parameter >> 4 == 0xD),
    {
        self.effect_type == 0xE && (self.effect_parameter >> 4) == 0xD
    }

    /// An empty retrigger is effect 0xE with argument exactly 0x90.
    pub fn has_retrigger_note_empty(&self) -> (r: bool)
        ensures
            r == (self.effect_type == 0xE && self.effect_parameter == 0x90),
    {
        self.effect_type == 0xE && self.effect_parameter == 0x90
    }

    /// Tone portamento: effect 3 or 5, or volume column command 0xF.
    pub fn has_tone_portamento(&self) -> (r: bool)
        ensures
            r == (self.effect_type == 3 || self.effect_type == 5 || self.volume >> 4 == 0x0F),
    {
        self.effect_type == 3 || self.effect_type == 5 || self.volume >> 4 == 0x0F
    }

    /// Vibrato: effect 4 or 6, or volume column command 0xB.
    pub fn has_vibrato(&self) -> (r: bool)
        ensures
            r == (self.effect_type == 4 || self.effect_type == 6 || self.volume >> 4 == 0x0B),
    {
        self.effect_type == 4 || self.effect_type == 6 || self.volume >> 4 == 0x0B
    }

    /// Volume slide: effect 5, 6 or 0xA, or effect 0xE with sub-command 0xA
    /// or 0xB.
    pub fn has_volume_slide(&self) -> (r: bool)
        ensures
            r == (self.effect_type == 5 || self.effect_type == 6 || self.effect_type == 0xA || (
            self.effect_type == 0xE && (self.effect_parameter >> 4 == 0xA || self.effect_parameter
                >> 4 == 0xB))),
    {
        self.effect_type == 5 || self.effect_type == 6 || self.effect_type == 0xA || (
        self.effect_type == 0xE && (self.effect_parameter >> 4) == 0xA) || (self.effect_type == 0xE
            && (self.effect_parameter >> 4) == 0xB)
    }

    /// The letter shown for the volume column command of this cell.
    pub open spec fn spec_volume_letter(self) -> char {
        match self.volume >> 4 {
            0x0 => '-',
            0x1 => '0',
            0x2 => '1',
            0x3 => '2',
            0x4 => '3',
            0x5 => '4',
            0x6 => '-',
            0x7 => '+',
            0x8 => 'D',
            0x9 => 'U',
            0xA => 'S',
            0xB => 'V',
            0xC => 'P',
            0xD => 'L',
            0xE => 'R',
            _ => 'M',
        }
    }

    /// The letter shown for the volume column command of this cell.
    pub fn volume_letter(&self) -> (r: char)
        ensures
            r == self.spec_volume_letter(),
    {
        match self.volume >> 4 {
            0x0 => '-',
            0x1 => '0',
            0x2 => '1',
            0x3 => '2',
            0x4 => '3',
            0x5 => '4',
            0x6 => '-',
            0x7 => '+',
            0x8 => 'D',
            0x9 => 'U',
            0xA => 'S',
            0xB => 'V',
            0xC => 'P',
            0xD => 'L',
            0xE => 'R',
            _ => 'M',
        }
    }

    /// The letter shown for the effect of this cell: '0'..'9' then 'A'..'X',
    /// with unknown effects shown as '0'.
    pub open spec fn spec_effect_letter(self) -> char {
        match self.effect_type {
            0x0 => '0',
            0x1 => '1',
            0x2 => '2',
            0x3 => '3',
            0x4 => '4',
            0x5 => '5',
            0x6 => '6',
            0x7 => '7',
            0x8 => '8',
            0x9 => '9',
            0xA => 'A',
            0xB => 'B',
            0xC => 'C',
            0xD => 'D',
            0xE => 'E',
            0xF => 'F',
            0x10 => 'G',
            0x11 => 'H',
            0x12 => 'I',
            0x13 => 'J',
            0x14 => 'K',
            0x15 => 'L',
            0x16 => 'M',
            0x17 => 'N',
            0x18 => 'O',
            0x19 => 'P',
            0x1A => 'Q',
            0x1B => 'R',
            0x1C => 'S',
            0x1D => 'T',
            0x1E => 'U',
            0x1F => 'V',
            0x20 => 'W',
            0x21 => 'X',
            _ => '0',
        }
    }

    /// The letter shown for the effect of this cell.
    pub fn effect_letter(&self) -> (r: char)
        ensures
            r == self.spec_effect_letter(),
    {
        match self.effect_type {
            0x0 => '0',
            0x1 => '1',
            0x2 => '2',
            0x3 => '3',
            0x4 => '4',
            0x5 => '5',
            0x6 => '6',
            0x7 => '7',
            0x8 => '8',
            0x9 => '9',
            0xA => 'A',
            0xB => 'B',
            0xC => 'C',
            0xD => 'D',
            0xE => 'E',
            0xF => 'F',
            0x10 => 'G',
            0x11 => 'H',
            0x12 => 'I',
            0x13 => 'J',
            0x14 => 'K',
            0x15 => 'L',
            0x16 => 'M',
            0x17 => 'N',
            0x18 => 'O',
            0x19 => 'P',
            0x1A => 'Q',
            0x1B => 'R',
            0x1C => 'S',
            0x1D => 'T',
            0x1E => 'U',
            0x1F => 'V',
            0x20 => 'W',
            0x21 => 'X',
            _ => '0',
        }
    }
}

} // verus!
