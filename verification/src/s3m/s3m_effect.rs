//! The S3M to XM effect-translation state machine.
//!
//! Scream Tracker 3 effect letters are remapped to the XM effect space
//! through a per-channel memory carrying the last raw parameter, the last
//! vibrato parameter, the last effect, and the last instrument seen with a
//! tone portamento. The translation replicates the sharing quirks of the
//! original player: zero parameters inherit the channel memory, fine
//! slides are re-encoded, and a handful of no-op sub-commands are
//! cancelled outright.

use vstd::prelude::*;

use crate::note::Note;
use crate::patternslot::PatternSlot;

verus! {

/// The effect memory of one channel.
#[derive(Copy, Clone, Debug, PartialEq, Eq, Structural)]
pub struct ChannelMemory {
    /// Last non-zero raw effect parameter.
    pub nfo: u8,
    /// Last non-zero effect number.
    pub efx: u8,
    /// Last non-zero vibrato parameter.
    pub vibnfo: u8,
    /// Last instrument seen outside a tone portamento.
    pub g_instrument: u8,
}

impl ChannelMemory {
    /// The empty memory every channel starts with.
    pub open spec fn spec_new() -> ChannelMemory {
        ChannelMemory { nfo: 0, efx: 0, vibnfo: 0, g_instrument: 0 }
    }
}

/// The parameter a cell carries after the memory-sharing pass: a zero
/// parameter inherits the channel's memory, and is cleared again when the
/// effect repeats and its XM counterpart has its own memory.
pub open spec fn spec_shared_param(st: ChannelMemory, n: PatternSlot) -> u8 {
    let nfo1 = if n.effect_parameter > 0 {
        n.effect_parameter
    } else {
        st.nfo
    };
    let vib1 = if n.effect_parameter > 0 && (n.effect_type == 8 || n.effect_type == 21) {
        n.effect_parameter
    } else {
        st.vibnfo
    };
    if n.effect_parameter == 0 && n.effect_type != 7 {
        let efx = n.effect_type;
        let inherited = if efx == 8 || efx == 21 {
            vib1
        } else if (4 <= efx && efx <= 12) || (17 <= efx && efx <= 19) {
            nfo1
        } else {
            n.effect_parameter
        };
        if efx == st.efx && efx != 10 && efx != 19 {
            let extra_fine_pitch_slides = (efx == 5 || efx == 6) && (inherited & 0xF0) == 0xE0;
            let fine_vol_slides = (efx == 4 || efx == 11) && ((inherited > 0xF0) || ((inherited
                & 0xF) == 0xF && (inherited & 0xF0) > 0));
            if !extra_fine_pitch_slides && !fine_vol_slides {
                0
            } else {
                inherited
            }
        } else {
            inherited
        }
    } else {
        n.effect_parameter
    }
}

/// The cell a raw S3M cell translates to, given the channel memory: the
/// effect remapped into the XM effect space with every legacy quirk.
pub open spec fn spec_translated_cell(st: ChannelMemory, n: PatternSlot) -> PatternSlot {
    let ep = spec_shared_param(st, n);
    let base = PatternSlot {
        note: n.note,
        instrument: n.instrument,
        volume: n.volume,
        effect_type: n.effect_type,
        effect_parameter: ep,
    };
    if n.effect_type == 1 {
        if ep == 0 {
            PatternSlot { effect_type: 0, effect_parameter: 0, ..base }
        } else if ep > 0x1F {
            PatternSlot { effect_type: 0xF, effect_parameter: 0x1F, ..base }
        } else {
            PatternSlot { effect_type: 0xF, ..base }
        }
    } else if n.effect_type == 2 {
        PatternSlot { effect_type: 0xB, ..base }
    } else if n.effect_type == 3 {
        PatternSlot { effect_type: 0xD, ..base }
    } else if n.effect_type == 4 {
        if ep > 0xF0 {
            PatternSlot { effect_type: 0xE, effect_parameter: (0xB0 | (ep & 0xF)) as u8, ..base }
        } else if (ep & 0x0F) == 0x0F && (ep & 0xF0) > 0 {
            PatternSlot { effect_type: 0xE, effect_parameter: (0xA0 | (ep >> 4)) as u8, ..base }
        } else if ep & 0x0F != 0 {
            PatternSlot { effect_type: 0xA, effect_parameter: (ep & 0x0F) as u8, ..base }
        } else {
            PatternSlot { effect_type: 0xA, ..base }
        }
    } else if n.effect_type == 5 || n.effect_type == 6 {
        if (ep & 0xF0) >= 0xE0 {
            let tmp: u8 = if (ep & 0xF0) == 0xE0 {
                0x21
            } else {
                0x0E
            };
            let ep2: u8 = if n.effect_type == 5 {
                ((ep & 0x0F) | 0x20) as u8
            } else {
                ((ep & 0x0F) | 0x10) as u8
            };
            if tmp == 0x21 && ep2 == 0 {
                PatternSlot { effect_type: 0, effect_parameter: ep2, ..base }
            } else {
                PatternSlot { effect_type: tmp, effect_parameter: ep2, ..base }
            }
        } else {
            PatternSlot { effect_type: (7 - n.effect_type) as u8, ..base }
        }
    } else if n.effect_type == 7 {
        let instr = if n.instrument != 0 && n.instrument != st.g_instrument {
            st.g_instrument
        } else {
            n.instrument
        };
        PatternSlot { effect_type: 0x03, instrument: instr, ..base }
    } else if n.effect_type == 8 {
        PatternSlot { effect_type: 0x04, ..base }
    } else if n.effect_type == 9 {
        PatternSlot { effect_type: 0x1D, ..base }
    } else if n.effect_type == 10 {
        PatternSlot { effect_type: 0x00, ..base }
    } else if n.effect_type == 11 {
        if ep > 0xF0 {
            PatternSlot {
                effect_type: 0xE,
                effect_parameter: (0xB0 | (ep & 0xF)) as u8,
                volume: if n.volume == 0 {
                    0xB0
                } else {
                    n.volume
                },
                ..base
            }
        } else if (ep & 0x0F) == 0x0F && (ep & 0xF0) > 0 {
            PatternSlot {
                effect_type: 0xE,
                effect_parameter: (0xA0 | (ep >> 4)) as u8,
                volume: if n.volume == 0 {
                    0xB0
                } else {
                    n.volume
                },
                ..base
            }
        } else if ep & 0x0F != 0 {
            PatternSlot { effect_type: 0x6, effect_parameter: (ep & 0x0F) as u8, ..base }
        } else {
            PatternSlot { effect_type: 0x6, ..base }
        }
    } else if n.effect_type == 12 {
        PatternSlot { effect_type: 0x05, ..base }
    } else if n.effect_type == 15 {
        PatternSlot { effect_type: 0x09, ..base }
    } else if n.effect_type == 17 {
        PatternSlot { effect_type: 0x1B, ..base }
    } else if n.effect_type == 18 {
        PatternSlot { effect_type: 0x07, ..base }
    } else if n.effect_type == 19 {
        let tmp = ep >> 4;
        let low = (ep & 0x0F) as u8;
        if tmp == 0x1 {
            PatternSlot { effect_type: 0xE, effect_parameter: (low | 0x30) as u8, ..base }
        } else if tmp == 0x2 {
            PatternSlot { effect_type: 0xE, effect_parameter: (low | 0x50) as u8, ..base }
        } else if tmp == 0x3 {
            PatternSlot { effect_type: 0xE, effect_parameter: (low | 0x40) as u8, ..base }
        } else if tmp == 0x4 {
            PatternSlot { effect_type: 0xE, effect_parameter: (low | 0x70) as u8, ..base }
        } else if tmp == 0xB {
            PatternSlot { effect_type: 0xE, effect_parameter: (low | 0x60) as u8, ..base }
        } else if tmp == 0xC {
            // "EC0" does nothing in Scream Tracker but cuts the voice in
            // Fast Tracker: the effect is removed outright.
            if low == 0 {
                PatternSlot { effect_type: 0, effect_parameter: 0, ..base }
            } else {
                PatternSlot { effect_type: 0xE, effect_parameter: (low | 0xC0) as u8, ..base }
            }
        } else if tmp == 0xD {
            // A note delay without a note, and "ED0", are no-ops in Scream
            // Tracker: the effect (or the whole cell) is cancelled.
            if n.note is Empty {
                PatternSlot { effect_type: 0, effect_parameter: 0, ..base }
            } else if low == 0 {
                PatternSlot {
                    note: Note::Empty,
                    instrument: 0,
                    volume: 0,
                    effect_type: 0,
                    effect_parameter: 0,
                }
            } else {
                PatternSlot { effect_type: 0xE, effect_parameter: (low | 0xD0) as u8, ..base }
            }
        } else if tmp == 0xE {
            PatternSlot { effect_type: 0xE, effect_parameter: (low | 0xE0) as u8, ..base }
        } else if tmp == 0xF {
            PatternSlot { effect_type: 0xE, effect_parameter: (low | 0xF0) as u8, ..base }
        } else {
            PatternSlot { effect_type: 0, effect_parameter: 0, ..base }
        }
    } else if n.effect_type == 20 {
        if ep < 0x21 {
            PatternSlot { effect_type: 0, effect_parameter: 0, ..base }
        } else {
            PatternSlot { effect_type: 0x0F, ..base }
        }
    } else if n.effect_type == 22 {
        if ep > 0x40 {
            PatternSlot { effect_type: 0, effect_parameter: 0, ..base }
        } else {
            PatternSlot { effect_type: 0x10, ..base }
        }
    } else {
        PatternSlot { effect_type: 0, effect_parameter: 0, ..base }
    }
}

/// The channel memory after translating one cell.
pub open spec fn spec_next_memory(st: ChannelMemory, n: PatternSlot) -> ChannelMemory {
    let out = spec_translated_cell(st, n);
    ChannelMemory {
        nfo: if n.effect_parameter > 0 {
            n.effect_parameter
        } else {
            st.nfo
        },
        vibnfo: if n.effect_parameter > 0 && (n.effect_type == 8 || n.effect_type == 21) {
            n.effect_parameter
        } else {
            st.vibnfo
        },
        efx: if n.effect_type > 0 {
            n.effect_type
        } else {
            st.efx
        },
        g_instrument: if out.instrument != 0 && out.effect_type != 0x3 {
            out.instrument
        } else {
            st.g_instrument
        },
    }
}

/// The memory a channel has reached after its first `k` cells.
pub open spec fn spec_channel_memory(cells: Seq<PatternSlot>, k: int) -> ChannelMemory
    decreases k,
{
    if k <= 0 {
        ChannelMemory::spec_new()
    } else {
        spec_next_memory(spec_channel_memory(cells, k - 1), cells[k - 1])
    }
}

/// The translated cell at row `k` of a channel: a pure function of the
/// channel's raw cell sequence alone.
pub open spec fn spec_channel_out(cells: Seq<PatternSlot>, k: int) -> PatternSlot {
    spec_translated_cell(spec_channel_memory(cells, k), cells[k])
}

/// Column `c` of a pattern: the raw cells of one channel in row order.
pub open spec fn spec_column(rows: Seq<Seq<PatternSlot>>, c: int) -> Seq<PatternSlot> {
    Seq::new(rows.len(), |i: int| rows[i][c])
}

/// The effect translation of a channel is a pure function of that
/// channel's raw cell sequence: two patterns that agree on a channel's
/// column translate every cell of that channel identically, whatever
/// stands in their other channels.
pub proof fn lemma_channel_translation_independent(
    a: Seq<Seq<PatternSlot>>,
    b: Seq<Seq<PatternSlot>>,
    c: int,
    k: int,
)
    requires
        spec_column(a, c) == spec_column(b, c),
    ensures
        spec_channel_out(spec_column(a, c), k) == spec_channel_out(spec_column(b, c), k),
{
}

/// The per-channel effect memory of a whole S3M pattern.
#[derive(Clone, Debug, PartialEq)]
pub struct S3mEffect {
    /// One memory per channel, 32 channels.
    pub chan: Vec<ChannelMemory>,
}

impl S3mEffect {
    /// One empty memory per channel.
    pub open spec fn wf(self) -> bool {
        self.chan@.len() == 32
    }

    /// Fresh memory: every channel empty.
    pub fn new() -> (r: S3mEffect)
        ensures
            r.wf(),
            forall|c: int| 0 <= c < 32 ==> r.chan@[c] == ChannelMemory::spec_new(),
    {
        let mut chan: Vec<ChannelMemory> = Vec::new();
        let mut i: usize = 0;
        while i < 32
            invariant
                i <= 32,
                chan@.len() == i,
                forall|c: int| 0 <= c < i ==> chan@[c] == ChannelMemory::spec_new(),
            decreases 32 - i,
        {
            chan.push(ChannelMemory { nfo: 0, efx: 0, vibnfo: 0, g_instrument: 0 });
            i = i + 1;
        }
        S3mEffect { chan }
    }

    /// Translate one cell of channel `ii` and update that channel's
    /// memory; no other channel is touched.
    #[verifier::rlimit(90)]
    pub fn efx_correction(&mut self, ii: usize, n: &mut PatternSlot)
        requires
            old(self).wf(),
            ii < 32,
        ensures
            final (self).wf(),
            final (self).chan@ == old(self).chan@.update(
                ii as int,
                spec_next_memory(old(self).chan@[ii as int], *old(n)),
            ),
            *final (n) == spec_translated_cell(old(self).chan@[ii as int], *old(n)),
    {
        let st = self.chan[ii];
        let n0: PatternSlot = *n;
        let ep = Self::shared_param(st, n0);
        n.effect_parameter = ep;
        if n0.effect_type == 1 {
            n.effect_type = 0xF;
            if ep == 0 {
                n.effect_type = 0;
                n.effect_parameter = 0;
            } else if ep > 0x1F {
                n.effect_parameter = 0x1F;
            }
        } else if n0.effect_type == 2 {
            n.effect_type = 0xB;
        } else if n0.effect_type == 3 {
            n.effect_type = 0xD;
        } else if n0.effect_type == 4 {
            if ep > 0xF0 {
                n.effect_type = 0xE;
                n.effect_parameter = 0xB0 | (ep & 0xF);
            } else if (ep & 0x0F) == 0x0F && (ep & 0xF0) > 0 {
                n.effect_type = 0xE;
                n.effect_parameter = 0xA0 | (ep >> 4);
            } else {
                n.effect_type = 0xA;
                if ep & 0x0F != 0 {
                    n.effect_parameter = ep & 0x0F;
                }
            }
        } else if n0.effect_type == 5 || n0.effect_type == 6 {
            if (ep & 0xF0) >= 0xE0 {
                let tmp: u8 = if (ep & 0xF0) == 0xE0 {
                    0x21
                } else {
                    0x0E
                };
                if n0.effect_type == 5 {
                    n.effect_parameter = (ep & 0x0F) | 0x20;
                } else {
                    n.effect_parameter = (ep & 0x0F) | 0x10;
                }
                n.effect_type = tmp;
                if n.effect_type == 0x21 && n.effect_parameter == 0 {
                    n.effect_type = 0;
                }
            } else {
                n.effect_type = 7 - n0.effect_type;
            }
        } else if n0.effect_type == 7 {
            n.effect_type = 0x03;
            if n0.instrument != 0 && n0.instrument != st.g_instrument {
                n.instrument = st.g_instrument;
            }
        } else if n0.effect_type == 8 {
            n.effect_type = 0x04;
        } else if n0.effect_type == 9 {
            n.effect_type = 0x1D;
        } else if n0.effect_type == 10 {
            n.effect_type = 0x00;
        } else if n0.effect_type == 11 {
            if ep > 0xF0 {
                n.effect_type = 0xE;
                n.effect_parameter = 0xB0 | (ep & 0xF);
                if n0.volume == 0 {
                    n.volume = 0xB0;
                }
            } else if (ep & 0x0F) == 0x0F && (ep & 0xF0) > 0 {
                n.effect_type = 0xE;
                n.effect_parameter = 0xA0 | (ep >> 4);
                if n0.volume == 0 {
                    n.volume = 0xB0;
                }
            } else {
                n.effect_type = 0x6;
                if ep & 0x0F != 0 {
                    n.effect_parameter = ep & 0x0F;
                }
            }
        } else if n0.effect_type == 12 {
            n.effect_type = 0x05;
        } else if n0.effect_type == 15 {
            n.effect_type = 0x09;
        } else if n0.effect_type == 17 {
            n.effect_type = 0x1B;
        } else if n0.effect_type == 18 {
            n.effect_type = 0x07;
        } else if n0.effect_type == 19 {
            n.effect_type = 0xE;
            let tmp = ep >> 4;
            let low = ep & 0x0F;
            n.effect_parameter = low;
            if tmp == 0x1 {
                n.effect_parameter = low | 0x30;
            } else if tmp == 0x2 {
                n.effect_parameter = low | 0x50;
            } else if tmp == 0x3 {
                n.effect_parameter = low | 0x40;
            } else if tmp == 0x4 {
                n.effect_parameter = low | 0x70;
            } else if tmp == 0xB {
                n.effect_parameter = low | 0x60;
            } else if tmp == 0xC {
                // "EC0" does nothing in Scream Tracker but cuts the voice
                // in Fast Tracker: the whole effect is removed.
                if low == 0 {
                    n.effect_type = 0;
                    n.effect_parameter = 0;
                } else {
                    n.effect_parameter = low | 0xC0;
                }
            } else if tmp == 0xD {
                // A note delay without a note, and "ED0", are no-ops in
                // Scream Tracker: the effect (or the whole cell) goes.
                if n0.note.is_none() {
                    n.effect_type = 0;
                    n.effect_parameter = 0;
                } else if low == 0 {
                    n.note = Note::Empty;
                    n.instrument = 0;
                    n.volume = 0;
                    n.effect_type = 0;
                    n.effect_parameter = 0;
                } else {
                    n.effect_parameter = low | 0xD0;
                }
            } else if tmp == 0xE {
                n.effect_parameter = low | 0xE0;
            } else if tmp == 0xF {
                n.effect_parameter = low | 0xF0;
            } else {
                n.effect_type = 0;
                n.effect_parameter = 0;
            }
        } else if n0.effect_type == 20 {
            n.effect_type = 0x0F;
            if ep < 0x21 {
                n.effect_type = 0;
                n.effect_parameter = 0;
            }
        } else if n0.effect_type == 22 {
            n.effect_type = 0x10;
            if ep > 0x40 {
                n.effect_type = 0;
                n.effect_parameter = 0;
            }
        } else {
            n.effect_type = 0;
            n.effect_parameter = 0;
        }
        proof {
            assert(*n == spec_translated_cell(st, n0));
        }
        let new_st = ChannelMemory {
            nfo: if n0.effect_parameter > 0 {
                n0.effect_parameter
            } else {
                st.nfo
            },
            vibnfo: if n0.effect_parameter > 0 && (n0.effect_type == 8 || n0.effect_type == 21) {
                n0.effect_parameter
            } else {
                st.vibnfo
            },
            efx: if n0.effect_type > 0 {
                n0.effect_type
            } else {
                st.efx
            },
            g_instrument: if n.instrument != 0 && n.effect_type != 0x3 {
                n.instrument
            } else {
                st.g_instrument
            },
        };
        self.chan.set(ii, new_st);
    }

    /// The memory-sharing pass on one cell's parameter.
    fn shared_param(st: ChannelMemory, n: PatternSlot) -> (r: u8)
        ensures
            r == spec_shared_param(st, n),
    {
        let mut nfo1 = st.nfo;
        let mut vib1 = st.vibnfo;
        if n.effect_parameter > 0 {
            nfo1 = n.effect_parameter;
            if n.effect_type == 8 || n.effect_type == 21 {
                vib1 = n.effect_parameter;
            }
        }
        if n.effect_parameter == 0 && n.effect_type != 7 {
            let efx = n.effect_type;
            let inherited = if efx == 8 || efx == 21 {
                vib1
            } else if (4 <= efx && efx <= 12) || (17 <= efx && efx <= 19) {
                nfo1
            } else {
                n.effect_parameter
            };
            if efx == st.efx && efx != 10 && efx != 19 {
                let extra_fine_pitch_slides = (efx == 5 || efx == 6) && (inherited & 0xF0) == 0xE0;
                let fine_vol_slides = (efx == 4 || efx == 11) && ((inherited > 0xF0) || ((inherited
                    & 0xF) == 0xF && (inherited & 0xF0) > 0));
                if !extra_fine_pitch_slides && !fine_vol_slides {
                    0
                } else {
                    inherited
                }
            } else {
                inherited
            }
        } else {
            n.effect_parameter
        }
    }

    /// Translate a whole pattern in place. Every cell of channel `c`
    /// becomes a pure function of the raw cells of channel `c` alone: the
    /// translation of one channel neither reads nor writes any other.
    pub fn update_pattern(pattern: &mut Vec<Vec<PatternSlot>>)
        requires
            forall|i: int|
                0 <= i < old(pattern)@.len() ==> (#[trigger] old(pattern)@[i])@.len() == old(
                    pattern,
                )@[0]@.len(),
            old(pattern)@.len() > 0 ==> old(pattern)@[0]@.len() <= 32,
        ensures
            final (pattern)@.len() == old(pattern)@.len(),
            forall|i: int|
                0 <= i < final (pattern)@.len() ==> (#[trigger] final (pattern)@[i])@.len() == old(
                    pattern,
                )@[i]@.len(),
            forall|i: int, c: int|
                0 <= i < final (pattern)@.len() && 0 <= c < final (pattern)@[i]@.len() ==> (
                #[trigger] final (pattern)@[i]@[c]) == spec_channel_out(
                    spec_column(crate::module::pattern_view(*old(pattern)), c),
                    i,
                ),
    {
        let mut ufx = Self::new();
        let nrows = pattern.len();
        let width: usize = if nrows > 0 {
            pattern[0].len()
        } else {
            0
        };
        let ghost rows0 = crate::module::pattern_view(*pattern);
        let mut i: usize = 0;
        while i < nrows
            invariant
                ufx.wf(),
                nrows == pattern@.len(),
                rows0 == crate::module::pattern_view(*old(pattern)),
                rows0.len() == nrows,
                width <= 32,
                forall|k: int| 0 <= k < nrows ==> (#[trigger] rows0[k]).len() == width as int,
                i <= nrows,
                pattern@.len() == nrows,
                forall|k: int|
                    0 <= k < nrows ==> (#[trigger] pattern@[k])@.len() == width as int,
                forall|k: int, c: int|
                    i <= k < nrows && 0 <= c < width ==> (#[trigger] pattern@[k]@[c]) == rows0[k][c],
                forall|c: int|
                    0 <= c < width ==> (#[trigger] ufx.chan@[c]) == spec_channel_memory(
                        spec_column(rows0, c),
                        i as int,
                    ),
                forall|c: int|
                    width <= c < 32 ==> (#[trigger] ufx.chan@[c]) == ChannelMemory::spec_new(),
                forall|k: int, c: int|
                    0 <= k < i && 0 <= c < width ==> (#[trigger] pattern@[k]@[c])
                        == spec_channel_out(spec_column(rows0, c), k),
            decreases nrows - i,
        {
            let mut c: usize = 0;
            while c < width
                invariant
                    ufx.wf(),
                    nrows == pattern@.len(),
                    rows0.len() == nrows,
                    width <= 32,
                    i < nrows,
                    c <= width,
                    forall|k: int| 0 <= k < nrows ==> (#[trigger] rows0[k]).len() == width as int,
                    forall|k: int|
                        0 <= k < nrows ==> (#[trigger] pattern@[k])@.len() == width as int,
                    forall|k: int, c2: int|
                        i < k < nrows && 0 <= c2 < width ==> (#[trigger] pattern@[k]@[c2])
                            == rows0[k][c2],
                    forall|c2: int|
                        c <= c2 < width ==> (#[trigger] pattern@[i as int]@[c2]) == rows0[i as int][c2],
                    forall|c2: int|
                        0 <= c2 < c ==> (#[trigger] ufx.chan@[c2]) == spec_channel_memory(
                            spec_column(rows0, c2),
                            i + 1,
                        ),
                    forall|c2: int|
                        c <= c2 < width ==> (#[trigger] ufx.chan@[c2]) == spec_channel_memory(
                            spec_column(rows0, c2),
                            i as int,
                        ),
                    forall|c2: int|
                        width <= c2 < 32 ==> (#[trigger] ufx.chan@[c2])
                            == ChannelMemory::spec_new(),
                    forall|k: int, c2: int|
                        0 <= k < i && 0 <= c2 < width ==> (#[trigger] pattern@[k]@[c2])
                            == spec_channel_out(spec_column(rows0, c2), k),
                    forall|c2: int|
                        0 <= c2 < c ==> (#[trigger] pattern@[i as int]@[c2]) == spec_channel_out(
                            spec_column(rows0, c2),
                            i as int,
                        ),
                decreases width - c,
            {
                let ghost col = spec_column(rows0, c as int);
                let ghost cell0 = pattern@[i as int]@[c as int];
                proof {
                    assert(col[i as int] == rows0[i as int][c as int]);
                    assert(cell0 == col[i as int]);
                }
                ufx.efx_correction(c, &mut pattern[i][c]);
                proof {
                    assert(pattern@[i as int]@[c as int] == spec_translated_cell(
                        spec_channel_memory(col, i as int),
                        col[i as int],
                    ));
                    assert(ufx.chan@[c as int] == spec_next_memory(
                        spec_channel_memory(col, i as int),
                        col[i as int],
                    ));
                    assert(ufx.chan@[c as int] == spec_channel_memory(col, i + 1));
                }
                c = c + 1;
            }
            i = i + 1;
        }
    }
}

} // verus!
