//! The bit-packed pattern cell of the XM format.
//!
//! A cell is 5 raw bytes (note, instrument, volume, effect, parameter) when
//! the high bit of the first byte is clear; otherwise the low 5 bits of the
//! first byte say which of the five fields follow, in that fixed order, and
//! absent fields default to 0. Saving always picks the shorter form.

use vstd::prelude::*;

use crate::error::CodecError;
use crate::note::Note;
use crate::patternslot::PatternSlot;

verus! {

/// XM pattern slots are ordinary pattern slots.
pub type XmPatternSlot = PatternSlot;

/// 1 when the mask bit is set in `f`, else 0.
pub open spec fn spec_bit(f: u8, m: u8) -> int {
    if f & m != 0 {
        1
    } else {
        0
    }
}

/// How many field bytes follow a packed first byte `f`.
pub open spec fn spec_packed_count(f: u8) -> int {
    spec_bit(f, 1) + spec_bit(f, 2) + spec_bit(f, 4) + spec_bit(f, 8) + spec_bit(f, 16)
}

/// The cell the five field bytes decode to. Note byte values above 97 name
/// no note and decode to the empty note.
pub open spec fn spec_slot_from_bytes(n: u8, i: u8, v: u8, et: u8, ep: u8) -> PatternSlot {
    PatternSlot {
        note: match Note::spec_from_value(n) {
            Some(x) => x,
            None => Note::Empty,
        },
        instrument: i,
        volume: v,
        effect_type: et,
        effect_parameter: ep,
    }
}

/// Parse one cell of the packed stream at `pos`: the decoded cell and the
/// position after it, or nothing when the stream ends too early.
pub open spec fn spec_slot_parse(b: Seq<u8>, pos: int) -> Option<(PatternSlot, int)> {
    if pos < 0 || pos >= b.len() {
        None
    } else {
        let f = b[pos];
        if f & 0x80 != 0 {
            let c = spec_packed_count(f);
            if pos + 1 + c > b.len() {
                None
            } else {
                let o_note = pos + 1;
                let o_instr = o_note + spec_bit(f, 1);
                let o_vol = o_instr + spec_bit(f, 2);
                let o_et = o_vol + spec_bit(f, 4);
                let o_ep = o_et + spec_bit(f, 8);
                let nb = if f & 1 != 0 {
                    b[o_note]
                } else {
                    0
                };
                let ib = if f & 2 != 0 {
                    b[o_instr]
                } else {
                    0
                };
                let vb = if f & 4 != 0 {
                    b[o_vol]
                } else {
                    0
                };
                let eb = if f & 8 != 0 {
                    b[o_et]
                } else {
                    0
                };
                let pb = if f & 16 != 0 {
                    b[o_ep]
                } else {
                    0
                };
                Some((spec_slot_from_bytes(nb, ib, vb, eb, pb), pos + 1 + c))
            }
        } else {
            if pos + 5 > b.len() {
                None
            } else {
                Some(
                    (
                        spec_slot_from_bytes(b[pos], b[pos + 1], b[pos + 2], b[pos + 3], b[pos + 4]),
                        pos + 5,
                    ),
                )
            }
        }
    }
}

/// The unpacked 5-byte form of a cell.
pub open spec fn spec_slot_save_unpack(s: PatternSlot) -> Seq<u8> {
    seq![s.note.spec_value(), s.instrument, s.volume, s.effect_type, s.effect_parameter]
}

/// The bytes a cell saves to: the packed form unless all of the first four
/// fields are present, in which case packing would not be shorter and the
/// raw 5-byte form is used.
pub open spec fn spec_slot_save(s: PatternSlot) -> Seq<u8> {
    let n = s.note.spec_value();
    if n != 0 && s.instrument != 0 && s.volume != 0 && s.effect_type != 0 {
        spec_slot_save_unpack(s)
    } else {
        let f = (0x80u8 | (if n != 0 {
            1u8
        } else {
            0u8
        }) | (if s.instrument != 0 {
            2u8
        } else {
            0u8
        }) | (if s.volume != 0 {
            4u8
        } else {
            0u8
        }) | (if s.effect_type != 0 {
            8u8
        } else {
            0u8
        }) | (if s.effect_parameter != 0 {
            16u8
        } else {
            0u8
        }));
        seq![f] + (if n != 0 {
            seq![n]
        } else {
            Seq::<u8>::empty()
        }) + (if s.instrument != 0 {
            seq![s.instrument]
        } else {
            Seq::<u8>::empty()
        }) + (if s.volume != 0 {
            seq![s.volume]
        } else {
            Seq::<u8>::empty()
        }) + (if s.effect_type != 0 {
            seq![s.effect_type]
        } else {
            Seq::<u8>::empty()
        }) + (if s.effect_parameter != 0 {
            seq![s.effect_parameter]
        } else {
            Seq::<u8>::empty()
        })
    }
}

impl XmPatternSlot {
    /// Decode one cell from the packed stream at `pos`; return the cell and
    /// the position after it, or a truncation error when the declared
    /// fields run past the end of the stream.
    pub fn load(src: &[u8], pos: usize) -> (r: Result<(XmPatternSlot, usize), CodecError>)
        ensures
            r matches Ok((s, p)) ==> spec_slot_parse(src@, pos as int) == Some((s, p as int))
                && pos < p <= src@.len(),
            r is Err <==> spec_slot_parse(src@, pos as int) is None,
    {
        if pos >= src.len() {
            return Err(CodecError::Truncated);
        }
        let f = src[pos];
        if f & 0x80 != 0 {
            let mut p = pos + 1;
            let mut nb: u8 = 0;
            let mut ib: u8 = 0;
            let mut vb: u8 = 0;
            let mut eb: u8 = 0;
            let mut pb: u8 = 0;
            if f & 1 != 0 {
                if p >= src.len() {
                    return Err(CodecError::Truncated);
                }
                nb = src[p];
                p = p + 1;
            }
            if f & 2 != 0 {
                if p >= src.len() {
                    return Err(CodecError::Truncated);
                }
                ib = src[p];
                p = p + 1;
            }
            if f & 4 != 0 {
                if p >= src.len() {
                    return Err(CodecError::Truncated);
                }
                vb = src[p];
                p = p + 1;
            }
            if f & 8 != 0 {
                if p >= src.len() {
                    return Err(CodecError::Truncated);
                }
                eb = src[p];
                p = p + 1;
            }
            if f & 16 != 0 {
                if p >= src.len() {
                    return Err(CodecError::Truncated);
                }
                pb = src[p];
                p = p + 1;
            }
            let note = match Note::try_from_value(nb) {
                Some(x) => x,
                Option::None => Note::Empty,
            };
            Ok(
                (
                    XmPatternSlot {
                        note,
                        instrument: ib,
                        volume: vb,
                        effect_type: eb,
                        effect_parameter: pb,
                    },
                    p,
                ),
            )
        } else {
            if src.len() - pos < 5 {
                return Err(CodecError::Truncated);
            }
            let note = match Note::try_from_value(src[pos]) {
                Some(x) => x,
                Option::None => Note::Empty,
            };
            Ok(
                (
                    XmPatternSlot {
                        note,
                        instrument: src[pos + 1],
                        volume: src[pos + 2],
                        effect_type: src[pos + 3],
                        effect_parameter: src[pos + 4],
                    },
                    pos + 5,
                ),
            )
        }
    }

    /// The raw 5-byte form of this cell, never packed.
    pub fn save_unpack(&self) -> (r: Vec<u8>)
        ensures
            r@ == spec_slot_save_unpack(*self),
    {
        let mut bytes: Vec<u8> = Vec::new();
        bytes.push(self.note.value());
        bytes.push(self.instrument);
        bytes.push(self.volume);
        bytes.push(self.effect_type);
        bytes.push(self.effect_parameter);
        proof {
            assert(bytes@ =~= spec_slot_save_unpack(*self));
        }
        bytes
    }

    /// The shortest XM encoding of this cell: packed, unless all of the
    /// first four fields are present and packing would gain nothing.
    pub fn save(&self) -> (r: Vec<u8>)
        ensures
            r@ == spec_slot_save(*self),
            1 <= r@.len() <= 5,
    {
        let n = self.note.value();
        if n != 0 && self.instrument != 0 && self.volume != 0 && self.effect_type != 0 {
            let r = self.save_unpack();
            assert(r@ =~= spec_slot_save(*self));
            r
        } else {
            let f: u8 = (0x80u8 | (if n != 0 {
                1u8
            } else {
                0u8
            }) | (if self.instrument != 0 {
                2u8
            } else {
                0u8
            }) | (if self.volume != 0 {
                4u8
            } else {
                0u8
            }) | (if self.effect_type != 0 {
                8u8
            } else {
                0u8
            }) | (if self.effect_parameter != 0 {
                16u8
            } else {
                0u8
            }));
            let mut out: Vec<u8> = Vec::new();
            out.push(f);
            if n != 0 {
                out.push(n);
            }
            if self.instrument != 0 {
                out.push(self.instrument);
            }
            if self.volume != 0 {
                out.push(self.volume);
            }
            if self.effect_type != 0 {
                out.push(self.effect_type);
            }
            if self.effect_parameter != 0 {
                out.push(self.effect_parameter);
            }
            proof {
                assert(out@ =~= spec_slot_save(*self));
            }
            out
        }
    }
}

/// The value of the packed first byte assembled from the presence flags.
proof fn lemma_or_bits(a: bool, b: bool, c: bool, d: bool, e: bool)
    ensures
        ({
            let f = (0x80u8 | (if a {
                1u8
            } else {
                0u8
            }) | (if b {
                2u8
            } else {
                0u8
            }) | (if c {
                4u8
            } else {
                0u8
            }) | (if d {
                8u8
            } else {
                0u8
            }) | (if e {
                16u8
            } else {
                0u8
            }));
            &&& f & 0x80 != 0
            &&& (f & 1 != 0 <==> a)
            &&& (f & 2 != 0 <==> b)
            &&& (f & 4 != 0 <==> c)
            &&& (f & 8 != 0 <==> d)
            &&& (f & 16 != 0 <==> e)
        }),
{
    let x1: u8 = if a {
        1u8
    } else {
        0u8
    };
    let x2: u8 = if b {
        2u8
    } else {
        0u8
    };
    let x4: u8 = if c {
        4u8
    } else {
        0u8
    };
    let x8: u8 = if d {
        8u8
    } else {
        0u8
    };
    let x16: u8 = if e {
        16u8
    } else {
        0u8
    };
    assert((0x80u8 | x1 | x2 | x4 | x8 | x16) & 0x80 != 0 && ((0x80u8 | x1 | x2 | x4 | x8 | x16) & 1
        != 0 <==> x1 == 1) && ((0x80u8 | x1 | x2 | x4 | x8 | x16) & 2 != 0 <==> x2 == 2) && ((0x80u8
        | x1 | x2 | x4 | x8 | x16) & 4 != 0 <==> x4 == 4) && ((0x80u8 | x1 | x2 | x4 | x8 | x16) & 8
        != 0 <==> x8 == 8) && ((0x80u8 | x1 | x2 | x4 | x8 | x16) & 16 != 0 <==> x16 == 16))
        by (bit_vector)
        requires
            (x1 == 0 || x1 == 1) && (x2 == 0 || x2 == 2) && (x4 == 0 || x4 == 4) && (x8 == 0 || x8
                == 8) && (x16 == 0 || x16 == 16),
    ;
}

/// Loading the saved bytes of any cell restores the cell: the packed cell
/// codec is lossless wherever the saved bytes stand in a stream.
#[verifier::rlimit(80)]
pub proof fn lemma_slot_roundtrip(s: PatternSlot, b: Seq<u8>, pos: int)
    requires
        0 <= pos,
        pos + spec_slot_save(s).len() <= b.len(),
        b.subrange(pos, pos + spec_slot_save(s).len() as int) == spec_slot_save(s),
    ensures
        spec_slot_parse(b, pos) == Some((s, pos + spec_slot_save(s).len())),
{
    let sv = spec_slot_save(s);
    let n = s.note.spec_value();
    s.note.lemma_value_roundtrip();
    if n != 0 && s.instrument != 0 && s.volume != 0 && s.effect_type != 0 {
        assert(b[pos] == sv[0]);
        assert(sv[0] == n);
        assert(n & 0x80 == 0) by (bit_vector)
            requires
                n <= 97,
        ;
        assert(b[pos + 1] == sv[1] && b[pos + 2] == sv[2] && b[pos + 3] == sv[3] && b[pos + 4]
            == sv[4]);
        assert(spec_slot_parse(b, pos) == Some((s, pos + 5)));
    } else {
        lemma_or_bits(
            n != 0,
            s.instrument != 0,
            s.volume != 0,
            s.effect_type != 0,
            s.effect_parameter != 0,
        );
        let f = sv[0];
        assert(b[pos] == f);
        let c = spec_packed_count(f);
        assert(sv.len() == 1 + c);
        let o_note = pos + 1;
        let o_instr = o_note + spec_bit(f, 1);
        let o_vol = o_instr + spec_bit(f, 2);
        let o_et = o_vol + spec_bit(f, 4);
        let o_ep = o_et + spec_bit(f, 8);
        if n != 0 {
            assert(b[o_note] == sv[o_note - pos]);
            assert(sv[o_note - pos] == n);
        }
        if s.instrument != 0 {
            assert(b[o_instr] == sv[o_instr - pos]);
            assert(sv[o_instr - pos] == s.instrument);
        }
        if s.volume != 0 {
            assert(b[o_vol] == sv[o_vol - pos]);
            assert(sv[o_vol - pos] == s.volume);
        }
        if s.effect_type != 0 {
            assert(b[o_et] == sv[o_et - pos]);
            assert(sv[o_et - pos] == s.effect_type);
        }
        if s.effect_parameter != 0 {
            assert(b[o_ep] == sv[o_ep - pos]);
            assert(sv[o_ep - pos] == s.effect_parameter);
        }
        assert(spec_slot_parse(b, pos) == Some((s, pos + 1 + c)));
    }
}

} // verus!
