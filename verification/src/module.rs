//! The unified in-memory representation of a tracker song.

use vstd::prelude::*;

use crate::instrument::Instrument;
use crate::patternslot::PatternSlot;
use crate::period_helper::FrequencyType;

verus! {

/// Largest number of rows a pattern may carry.
pub const MAX_NUM_ROWS: usize = 4095;

/// A row contains one slot per channel.
pub type Row = Vec<PatternSlot>;

/// A pattern is an ordered sequence of rows.
pub type Pattern = Vec<Row>;

/// The sequence-of-sequences carried by a pattern.
pub open spec fn pattern_view(p: Pattern) -> Seq<Seq<PatternSlot>> {
    Seq::new(p@.len(), |i: int| p@[i]@)
}

/// A rectangular pattern: every row holds one slot per channel.
pub open spec fn pattern_is_rect(p: Pattern, channels: nat) -> bool {
    forall|i: int| 0 <= i < p@.len() ==> (#[trigger] p@[i])@.len() == channels
}

/// The root aggregate of the representation: playback metadata, patterns in
/// playback order, and instruments.
#[derive(Clone, Debug, PartialEq)]
pub struct Module {
    /// Name of the song.
    pub name: String,
    /// Free text comment.
    pub comment: String,
    /// Which historical pitch model applies to every instrument.
    pub frequency_type: FrequencyType,
    /// Restart index in `pattern_order`.
    pub restart_position: usize,
    /// Default tempo (ticks per row).
    pub default_tempo: u16,
    /// Default beats per minute.
    pub default_bpm: u16,
    /// The exact order of pattern playback; indices into `pattern`, values
    /// may repeat.
    pub pattern_order: Vec<usize>,
    /// The patterns themselves.
    pub pattern: Vec<Pattern>,
    /// Instrument 1 has index 0, instrument 2 has index 1, and so on.
    pub instrument: Vec<Instrument>,
}

impl Default for Module {
    fn default() -> (r: Self)
        ensures
            r.name@.len() == 0,
            r.comment@.len() == 0,
            r.frequency_type == FrequencyType::LinearFrequencies,
            r.restart_position == 0,
            r.default_tempo == 6,
            r.default_bpm == 125,
            r.pattern_order@.len() == 0,
            r.pattern@.len() == 0,
            r.instrument@.len() == 0,
    {
        Module {
            name: String::new(),
            comment: String::new(),
            frequency_type: FrequencyType::LinearFrequencies,
            restart_position: 0,
            default_tempo: 6,
            default_bpm: 125,
            pattern_order: Vec::new(),
            pattern: Vec::new(),
            instrument: Vec::new(),
        }
    }
}

impl Module {
    /// The song length: how many entries playback steps through.
    pub fn get_song_length(&self) -> (r: usize)
        ensures
            r == self.pattern_order@.len(),
    {
        self.pattern_order.len()
    }

    /// The number of channels, read from the first row of the first
    /// pattern; 0 when the module has no pattern or the first pattern has no
    /// row.
    pub fn get_num_channels(&self) -> (r: usize)
        ensures
            self.pattern@.len() == 0 ==> r == 0,
            self.pattern@.len() > 0 && self.pattern@[0]@.len() == 0 ==> r == 0,
            self.pattern@.len() > 0 && self.pattern@[0]@.len() > 0 ==> r == self.pattern@[0]@[0]@
                .len(),
    {
        if self.pattern.len() != 0 {
            let p0: &Pattern = &self.pattern[0];
            if p0.len() != 0 {
                p0[0].len()
            } else {
                0
            }
        } else {
            0
        }
    }

    /// The number of rows of pattern `pat_idx`; 0 when the module has no
    /// pattern at all.
    pub fn get_num_rows(&self, pat_idx: usize) -> (r: usize)
        requires
            self.pattern@.len() != 0 ==> pat_idx < self.pattern@.len(),
        ensures
            self.pattern@.len() == 0 ==> r == 0,
            self.pattern@.len() != 0 ==> r == self.pattern@[pat_idx as int]@.len(),
    {
        if self.pattern.len() != 0 {
            self.pattern[pat_idx].len()
        } else {
            0
        }
    }
}

} // verus!
