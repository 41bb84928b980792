//! The Scream Tracker 3 S3M loader: header, order list, parapointer
//! tables, instruments and packed patterns.

use vstd::prelude::*;

use crate::cursor::read_u16_le;
use crate::cursor::read_u32_le;
use crate::cursor::spec_u16_le;
use crate::cursor::spec_u32_le;
use crate::error::CodecError;
use crate::fixedstr::decoded_field;
use crate::fixedstr::fixed_bytes_to_string;
use crate::instr_default::InstrDefault;
use crate::instr_opl::InstrOpl;
use crate::instr_opl::MdiOpl;
use crate::instrument::Instrument;
use crate::instrument::InstrumentType;
use crate::module::Module;
use crate::module::Pattern;
use crate::note::Note;
use crate::patternslot::PatternSlot;
use crate::period_helper::FrequencyType;
use crate::sample::LoopType;
use crate::sample::Sample;
use crate::sample::SampleDataType;

use super::s3m_effect::S3mEffect;

verus! {

/// The fixed 96-byte S3M file header.
#[derive(Clone, Debug, PartialEq)]
pub struct S3mHeader {
    /// Song title, 28 bytes on disk.
    pub title: String,
    /// Always 0x1A.
    pub sig1: u8,
    /// Always 0x10 for S3M.
    pub song_type: u8,
    /// Number of order entries.
    pub order_count: u16,
    /// Number of instrument records.
    pub instrument_count: u16,
    /// Number of pattern records.
    pub pattern_count: u16,
    /// Header flag word.
    pub flags: u16,
    /// Tracker version word.
    pub version: u16,
    /// Sample format word.
    pub sample_type: u16,
    /// Initial speed (ticks per row).
    pub speed: u8,
    /// Initial tempo.
    pub tempo: u8,
    /// Global volume.
    pub global_volume: u8,
    /// Master volume byte.
    pub master_volume: u8,
}

/// A PCM instrument record of an S3M file, raw fields.
#[derive(Clone, Debug, PartialEq)]
pub struct S3mPcmInstr {
    /// High byte of the sample-data parapointer.
    pub ptr_data_h: u8,
    /// Low word of the sample-data parapointer.
    pub ptr_data_l: u16,
    /// Sample length in frames.
    pub len: u32,
    /// Loop start in frames.
    pub loop_start: u32,
    /// Loop end in frames.
    pub loop_end: u32,
    /// Volume, 0..=63.
    pub volume: u8,
    /// Bit 0: loop on, bit 1: stereo, bit 2: 16-bit.
    pub flags: u8,
    /// Sample rate of middle C.
    pub c2spd: u32,
    /// Instrument title, 28 bytes on disk.
    pub title: String,
}

impl S3mPcmInstr {
    /// Whether the loop flag is set.
    pub fn is_loop(&self) -> (r: bool)
        ensures
            r == (self.flags & 1 != 0),
    {
        self.flags & 1 != 0
    }

    /// Whether the data is stereo, left block then right block.
    pub fn is_stereo(&self) -> (r: bool)
        ensures
            r == (self.flags & 2 != 0),
    {
        self.flags & 2 != 0
    }

    /// Whether the data is 16-bit.
    pub fn is_16bits(&self) -> (r: bool)
        ensures
            r == (self.flags & 4 != 0),
    {
        self.flags & 4 != 0
    }

    /// The absolute file offset of this instrument's sample data.
    pub fn get_sample_offset(&self) -> (r: usize)
        ensures
            r == ((self.ptr_data_h as int) * 65536 + self.ptr_data_l as int) * 16,
    {
        ((self.ptr_data_h as usize) * 65536 + (self.ptr_data_l as usize)) * 16
    }

    /// Unbias an 8-bit sample byte: stored excess-128, returned signed.
    pub open spec fn spec_unbias8(b: u8) -> i8 {
        (b ^ 0x80) as i8
    }

    /// Signed halving with truncation toward zero, as the machine does.
    pub open spec fn spec_half(s: int) -> int {
        if s >= 0 {
            s / 2
        } else {
            -((-s) / 2)
        }
    }

    /// The mono wave an 8-bit payload converts to: every byte unbiased,
    /// and for stereo payloads the left and right halves averaged.
    pub open spec fn spec_convert8(stereo: bool, p: Seq<u8>) -> Seq<i8> {
        if stereo {
            Seq::new(
                (p.len() / 2) as nat,
                |i: int|
                    Self::spec_half(
                        (Self::spec_unbias8(p[i]) as int) + (Self::spec_unbias8(
                            p[i + p.len() as int / 2],
                        ) as int),
                    ) as i8,
            )
        } else {
            Seq::new(p.len(), |i: int| Self::spec_unbias8(p[i]))
        }
    }

    /// Convert this instrument's 8-bit payload: remove the format bias,
    /// and fold stereo to mono by averaging the left and right blocks.
    pub fn convert_8bit_sample(&self, p: &[u8]) -> (r: Vec<i8>)
        ensures
            r@ == Self::spec_convert8(self.flags & 2 != 0, p@),
    {
        let length = p.len();
        let mut dst: Vec<i8> = Vec::new();
        if self.flags & 2 != 0 {
            let half = length / 2;
            let mut i: usize = 0;
            while i < half
                invariant
                    length == p@.len(),
                    half == p@.len() as int / 2,
                    2 * half <= length,
                    i <= half,
                    dst@ =~= Seq::new(
                        i as nat,
                        |k: int|
                            Self::spec_half(
                                (Self::spec_unbias8(p@[k]) as int) + (Self::spec_unbias8(
                                    p@[k + p@.len() as int / 2],
                                ) as int),
                            ) as i8,
                    ),
                decreases half - i,
            {
                proof {
                    assert(2 * (p@.len() as int / 2) <= p@.len() as int);
                }
                let l = p[i] ^ 0x80;
                let r2 = p[half + i] ^ 0x80;
                let sum: i16 = (l as i8) as i16 + (r2 as i8) as i16;
                let v: i8 = if sum >= 0 {
                    (sum / 2) as i8
                } else {
                    (-((-sum) / 2)) as i8
                };
                dst.push(v);
                proof {
                    assert(half + i == i + p@.len() as int / 2);
                    assert(dst@ =~= Seq::new(
                        (i + 1) as nat,
                        |k: int|
                            Self::spec_half(
                                (Self::spec_unbias8(p@[k]) as int) + (Self::spec_unbias8(
                                    p@[k + p@.len() as int / 2],
                                ) as int),
                            ) as i8,
                    ));
                }
                i = i + 1;
            }
        } else {
            let mut i: usize = 0;
            while i < length
                invariant
                    length == p@.len(),
                    i <= length,
                    dst@ =~= Seq::new(i as nat, |k: int| Self::spec_unbias8(p@[k])),
                decreases length - i,
            {
                dst.push((p[i] ^ 0x80) as i8);
                proof {
                    assert(dst@ =~= Seq::new((i + 1) as nat, |k: int| Self::spec_unbias8(p@[k])));
                }
                i = i + 1;
            }
        }
        dst
    }

    /// Unbias a 16-bit sample word: stored excess-32768, returned signed.
    pub open spec fn spec_unbias16(w: u16) -> i16 {
        (w ^ 0x8000) as i16
    }

    /// The mono wave a 16-bit payload converts to: every word unbiased,
    /// and for stereo payloads the left and right halves averaged.
    pub open spec fn spec_convert16(stereo: bool, p: Seq<u16>) -> Seq<i16> {
        if stereo {
            Seq::new(
                (p.len() / 2) as nat,
                |i: int|
                    Self::spec_half(
                        (Self::spec_unbias16(p[i]) as int) + (Self::spec_unbias16(
                            p[i + p.len() as int / 2],
                        ) as int),
                    ) as i16,
            )
        } else {
            Seq::new(p.len(), |i: int| Self::spec_unbias16(p[i]))
        }
    }

    /// Convert this instrument's 16-bit payload, folding stereo to mono.
    pub fn convert_16bit_sample(&self, p: &[u16]) -> (r: Vec<i16>)
        ensures
            r@ == Self::spec_convert16(self.flags & 2 != 0, p@),
    {
        let length = p.len();
        let mut dst: Vec<i16> = Vec::new();
        if self.flags & 2 != 0 {
            let half = length / 2;
            let mut i: usize = 0;
            while i < half
                invariant
                    length == p@.len(),
                    half == p@.len() as int / 2,
                    2 * half <= length,
                    i <= half,
                    dst@ =~= Seq::new(
                        i as nat,
                        |k: int|
                            Self::spec_half(
                                (Self::spec_unbias16(p@[k]) as int) + (Self::spec_unbias16(
                                    p@[k + p@.len() as int / 2],
                                ) as int),
                            ) as i16,
                    ),
                decreases half - i,
            {
                proof {
                    assert(2 * (p@.len() as int / 2) <= p@.len() as int);
                }
                let l = p[i] ^ 0x8000;
                let r2 = p[half + i] ^ 0x8000;
                let sum: i32 = (l as i16) as i32 + (r2 as i16) as i32;
                let v: i16 = if sum >= 0 {
                    (sum / 2) as i16
                } else {
                    (-((-sum) / 2)) as i16
                };
                dst.push(v);
                proof {
                    assert(half + i == i + p@.len() as int / 2);
                    assert(dst@ =~= Seq::new(
                        (i + 1) as nat,
                        |k: int|
                            Self::spec_half(
                                (Self::spec_unbias16(p@[k]) as int) + (Self::spec_unbias16(
                                    p@[k + p@.len() as int / 2],
                                ) as int),
                            ) as i16,
                    ));
                }
                i = i + 1;
            }
        } else {
            let mut i: usize = 0;
            while i < length
                invariant
                    length == p@.len(),
                    i <= length,
                    dst@ =~= Seq::new(i as nat, |k: int| Self::spec_unbias16(p@[k])),
                decreases length - i,
            {
                dst.push((p[i] ^ 0x8000) as i16);
                proof {
                    assert(dst@ =~= Seq::new((i + 1) as nat, |k: int| Self::spec_unbias16(p@[k])));
                }
                i = i + 1;
            }
        }
        dst
    }

    /// How this instrument's payload reads out of the whole file: the
    /// bytes at its parapointer offset, the declared frame count clamped
    /// to what the buffer holds, 8-bit or 16-bit per the format flag, and
    /// stereo folded to mono.
    pub open spec fn spec_sample_data(self, b: Seq<u8>, d: SampleDataType) -> bool {
        let off = ((self.ptr_data_h as int) * 65536 + self.ptr_data_l as int) * 16;
        let clamped = if self.len as int > b.len() - off {
            b.len() - off
        } else {
            self.len as int
        };
        if self.flags & 4 != 0 {
            let avail = (b.len() - off) / 2;
            let words = if clamped > avail {
                avail
            } else {
                clamped
            };
            d matches SampleDataType::Depth16(v) && v@ == Self::spec_convert16(
                self.flags & 2 != 0,
                super::super::xm::helper::spec_le_u16s(b.subrange(off, off + 2 * words)),
            )
        } else {
            d matches SampleDataType::Depth8(v) && v@ == Self::spec_convert8(
                self.flags & 2 != 0,
                b.subrange(off, off + clamped),
            )
        }
    }

    /// Read this instrument's sample data out of the file. A declared
    /// length that runs past the end of the buffer is clamped to what is
    /// there, as some real-world files demand, never rejected; only a
    /// parapointer past the end of the buffer is an error.
    pub fn get_sample_data(&self, data: &[u8]) -> (r: Result<SampleDataType, CodecError>)
        ensures
            r matches Ok(d) ==> (d is Depth16 <==> self.flags & 4 != 0),
            r matches Ok(d) ==> self.spec_sample_data(data@, d),
            r is Err <==> ((self.ptr_data_h as int) * 65536 + self.ptr_data_l as int) * 16 > data@
                .len(),
            r matches Err(e) ==> e == CodecError::Truncated,
    {
        let offset = self.get_sample_offset();
        if offset > data.len() {
            return Err(CodecError::Truncated);
        }
        let len: usize = if self.len as usize > data.len() - offset {
            // fixes known broken files whose last sample overruns the end
            data.len() - offset
        } else {
            self.len as usize
        };
        if self.flags & 4 != 0 {
            let avail = (data.len() - offset) / 2;
            let words: usize = if len > avail {
                avail
            } else {
                len
            };
            proof {
                assert(2 * ((data@.len() - offset) / 2) <= data@.len() - offset);
            }
            let src = super::super::xm::helper::u8_slice_to_vec_u16(
                &data[offset..offset + 2 * words],
            );
            Ok(SampleDataType::Depth16(self.convert_16bit_sample(src.as_slice())))
        } else {
            let src: &[u8] = &data[offset..offset + len];
            Ok(SampleDataType::Depth8(self.convert_8bit_sample(src)))
        }
    }
}

/// An OPL (AdLib) instrument record of an S3M file, raw register bytes.
#[derive(Clone, Debug, PartialEq)]
pub struct S3mOplInstr {
    /// The twelve raw register bytes, modulator and carrier interleaved.
    pub regs: Vec<u8>,
    /// Volume, 0..=63.
    pub volume: u8,
    /// Sample rate of middle C.
    pub c2spd: u32,
    /// Instrument title, 28 bytes on disk.
    pub title: String,
}

impl S3mOplInstr {
    /// Twelve register bytes.
    pub open spec fn wf(self) -> bool {
        self.regs@.len() == 12
    }

    /// How the twelve raw register bytes spread into the named OPL
    /// operator fields, and the sample rate into pitch.
    pub open spec fn spec_converts(self, r: InstrOpl) -> bool {
        let m0 = self.regs@[0];
        let c1 = self.regs@[1];
        let m2 = self.regs@[2];
        let c3 = self.regs@[3];
        let m4 = self.regs@[4];
        let c5 = self.regs@[5];
        let m6 = self.regs@[6];
        let c7 = self.regs@[7];
        let m10 = self.regs@[10];
        &&& r.volume == self.volume
        &&& r.element.modulator.ksl == ((m2 & 0b0100_0000) >> 6) | (m2 >> 7)
        &&& r.element.modulator.multiple == m0 & 0b0000_1111
        &&& r.element.modulator.feedback == m10 >> 1
        &&& r.element.modulator.attack == m4 >> 4
        &&& r.element.modulator.sustain == m6 >> 4
        &&& r.element.modulator.eg == ((m0 & 0b0010_0000) != 0)
        &&& r.element.modulator.decay == m4 & 0b0000_1111
        &&& r.element.modulator.release == m6 & 0b0000_1111
        &&& r.element.modulator.total_level == m2 & 0b0011_1111
        &&& r.element.modulator.am == ((m0 & 0b1000_0000) != 0)
        &&& r.element.modulator.vib == ((m0 & 0b0100_0000) != 0)
        &&& r.element.modulator.ksr == ((m0 & 0b0001_0000) != 0)
        &&& r.element.modulator.con == ((m10 & 0b0000_0001) != 0)
        &&& r.element.carrier.ksl == ((c3 & 0b0100_0000) >> 6) | (c3 >> 7)
        &&& r.element.carrier.multiple == c1 & 0b0000_1111
        &&& r.element.carrier.feedback == m10 >> 1
        &&& r.element.carrier.attack == c5 >> 4
        &&& r.element.carrier.sustain == c7 >> 4
        &&& r.element.carrier.eg == ((c1 & 0b0010_0000) != 0)
        &&& r.element.carrier.decay == c5 & 0b0000_1111
        &&& r.element.carrier.release == c7 & 0b0000_1111
        &&& r.element.carrier.total_level == c3 & 0b0011_1111
        &&& r.element.carrier.am == ((c1 & 0b1000_0000) != 0)
        &&& r.element.carrier.vib == ((c1 & 0b0100_0000) != 0)
        &&& r.element.carrier.ksr == ((c1 & 0b0001_0000) != 0)
        &&& r.element.carrier.con == ((m10 & 0b0000_0001) != 0)
        &&& r.element.modulator_wave_select == self.regs@[8]
        &&& r.element.carrier_wave_select == self.regs@[9]
        &&& r.relative_note == c2spd_relative_note(self.c2spd as int)
        &&& r.finetune == c2spd_finetune(self.c2spd as int)
    }

    /// Spread the raw register bytes into the named OPL operator fields.
    pub fn to_instr_opl(&self) -> (r: InstrOpl)
        requires
            self.wf(),
        ensures
            self.spec_converts(r),
    {
        let m0 = self.regs[0];
        let c1 = self.regs[1];
        let m2 = self.regs[2];
        let c3 = self.regs[3];
        let m4 = self.regs[4];
        let c5 = self.regs[5];
        let m6 = self.regs[6];
        let c7 = self.regs[7];
        let m8 = self.regs[8];
        let c9 = self.regs[9];
        let m10 = self.regs[10];
        let (relative_note, finetune) = c2spd_to_relnote(self.c2spd);
        InstrOpl {
            element: crate::instr_opl::MdiInstr {
                modulator: MdiOpl {
                    ksl: ((m2 & 0b0100_0000) >> 6) | (m2 >> 7),
                    multiple: m0 & 0b0000_1111,
                    feedback: m10 >> 1,
                    attack: m4 >> 4,
                    sustain: m6 >> 4,
                    eg: (m0 & 0b0010_0000) != 0,
                    decay: m4 & 0b0000_1111,
                    release: m6 & 0b0000_1111,
                    total_level: m2 & 0b0011_1111,
                    am: (m0 & 0b1000_0000) != 0,
                    vib: (m0 & 0b0100_0000) != 0,
                    ksr: (m0 & 0b0001_0000) != 0,
                    con: (m10 & 0b0000_0001) != 0,
                },
                carrier: MdiOpl {
                    ksl: ((c3 & 0b0100_0000) >> 6) | (c3 >> 7),
                    multiple: c1 & 0b0000_1111,
                    feedback: m10 >> 1,
                    attack: c5 >> 4,
                    sustain: c7 >> 4,
                    eg: (c1 & 0b0010_0000) != 0,
                    decay: c5 & 0b0000_1111,
                    release: c7 & 0b0000_1111,
                    total_level: c3 & 0b0011_1111,
                    am: (c1 & 0b1000_0000) != 0,
                    vib: (c1 & 0b0100_0000) != 0,
                    ksr: (c1 & 0b0001_0000) != 0,
                    con: (m10 & 0b0000_0001) != 0,
                },
                modulator_wave_select: m8,
                carrier_wave_select: c9,
            },
            volume: self.volume,
            finetune,
            relative_note,
        }
    }
}

/// One instrument slot of an S3M file: the discriminator byte decides the
/// record layout; empty slots are kept as placeholder PCM records so slot
/// numbering is preserved.
#[derive(Clone, Debug, PartialEq)]
pub enum S3mInstrument {
    /// A sampled instrument (or an empty placeholder).
    PcmInstrument(S3mPcmInstr),
    /// An AdLib FM instrument.
    OplInstrument(S3mOplInstr),
}

/// An instrument slot together with its file name and decoded sample.
#[derive(Clone, Debug, PartialEq)]
pub struct S3mMetaInstrument {
    /// The discriminator byte of the slot.
    pub discriminator: u8,
    /// The DOS file name of the slot, 12 bytes on disk.
    pub filename: String,
    /// The record itself.
    pub value: S3mInstrument,
    /// The decoded sample data of a PCM slot.
    pub sample: Option<SampleDataType>,
}

/// The note a raw S3M note byte names: 254 is key-off, 255 is no note,
/// anything else splits into octave and semitone nibbles; values past the
/// highest pitch name no note.
pub open spec fn spec_s3m_note(note: u8) -> Note {
    if note == 254 {
        Note::KeyOff
    } else {
        if note == 255 {
            Note::Empty
        } else {
            let t = 1 + (note & 0xF) + 12 * (note >> 4);
            if t > 96 {
                Note::Empty
            } else {
                match Note::spec_from_value(t as u8) {
                    Some(n) => n,
                    None => Note::Empty,
                }
            }
        }
    }
}

/// One packed cell of an S3M row at `pos` (bounded by `end`): the channel
/// it addresses, the decoded cell, and the position after it; a zero
/// first byte ends the row and decodes to nothing. Fields whose bytes run
/// out keep their defaults, as the original player tolerated.
pub open spec fn spec_s3m_cell(b: Seq<u8>, pos: int, end: int) -> Option<(int, PatternSlot, int)> {
    let what = b[pos];
    if what == 0 {
        None
    } else {
        let channel = (what & 0x1F) as int;
        let p1 = pos + 1;
        let note = if what & 0x20 != 0 && p1 < end {
            spec_s3m_note(b[p1])
        } else {
            Note::Empty
        };
        let p2 = if what & 0x20 != 0 && p1 < end {
            p1 + 1
        } else {
            p1
        };
        let instr = if what & 0x20 != 0 && p2 < end {
            b[p2]
        } else {
            0u8
        };
        let p3 = if what & 0x20 != 0 && p2 < end {
            p2 + 1
        } else {
            p2
        };
        let vol = if what & 0x40 != 0 && p3 < end {
            if b[p3] > 64 {
                64u8
            } else {
                b[p3]
            }
        } else {
            0u8
        };
        let p4 = if what & 0x40 != 0 && p3 < end {
            p3 + 1
        } else {
            p3
        };
        let et = if what & 0x80 != 0 && p4 < end {
            b[p4]
        } else {
            0u8
        };
        let p5 = if what & 0x80 != 0 && p4 < end {
            p4 + 1
        } else {
            p4
        };
        let ep = if what & 0x80 != 0 && p5 < end {
            b[p5]
        } else {
            0u8
        };
        let p6 = if what & 0x80 != 0 && p5 < end {
            p5 + 1
        } else {
            p5
        };
        Some(
            (
                channel,
                PatternSlot {
                    note,
                    instrument: instr,
                    volume: vol,
                    effect_type: et,
                    effect_parameter: ep,
                },
                p6,
            ),
        )
    }
}

/// One whole S3M row from `pos`: cells are placed into their channels of
/// a 32-wide row until a zero byte or the end of the block.
pub open spec fn spec_s3m_row(b: Seq<u8>, pos: int, end: int, acc: Seq<PatternSlot>) -> (
    Seq<PatternSlot>,
    int,
)
    decreases end - pos,
{
    if pos < 0 || pos >= end {
        (acc, pos)
    } else {
        match spec_s3m_cell(b, pos, end) {
            None => (acc, pos + 1),
            Some((ch, slot, p)) => if p <= pos || p > end {
                (acc, p)
            } else {
                spec_s3m_row(b, p, end, acc.update(ch, slot))
            },
        }
    }
}

/// An S3M module held in memory: its header, cleaned order list,
/// instrument slots and decoded patterns.
#[derive(Clone, Debug, PartialEq)]
pub struct S3mModule {
    /// The file header.
    pub header: S3mHeader,
    /// The playback order, separators dropped and cut at the end marker.
    pub positions: Vec<u8>,
    /// The instrument slots.
    pub instruments: Vec<S3mMetaInstrument>,
    /// The decoded patterns, already translated to the XM effect space.
    pub patterns: Vec<Pattern>,
}

/// The order list with the 254 pattern-separator entries dropped.
pub open spec fn spec_drop_separators(s: Seq<u8>) -> Seq<u8>
    decreases s.len(),
{
    if s.len() == 0 {
        seq![]
    } else {
        spec_drop_separators(s.drop_last()) + (if s.last() == 254 {
            Seq::<u8>::empty()
        } else {
            seq![s.last()]
        })
    }
}

/// The index of the first end-of-song marker (255), or the length when
/// none is present.
pub open spec fn spec_first_eos(s: Seq<u8>) -> int
    decreases s.len(),
{
    if s.len() == 0 {
        0
    } else if s[0] == 255 {
        0
    } else {
        1 + spec_first_eos(s.drop_first())
    }
}

/// The cleaned order list: separators dropped, then cut at the first
/// end-of-song marker.
pub open spec fn spec_positions(raw: Seq<u8>) -> Seq<u8> {
    let f = spec_drop_separators(raw);
    f.take(spec_first_eos(f))
}

/// A scan that stops at the first end-of-song marker finds its index.
proof fn lemma_first_eos_index(s: Seq<u8>, k: int)
    requires
        0 <= k <= s.len(),
        forall|i: int| 0 <= i < k ==> s[i] != 255,
        k < s.len() ==> s[k] == 255,
    ensures
        spec_first_eos(s) == k,
    decreases k,
{
    if k == 0 {
        if s.len() > 0 {
            assert(s[0] == 255);
        }
    } else {
        assert(s[0] != 255);
        lemma_first_eos_index(s.drop_first(), k - 1);
    }
}

/// How a PCM instrument record reads out of the bytes at `off`.
pub open spec fn spec_pcm_loads(b: Seq<u8>, off: int, p: S3mPcmInstr) -> bool {
    &&& p.ptr_data_h == b[off + 13]
    &&& p.ptr_data_l as int == spec_u16_le(b, off + 14)
    &&& p.len as int == spec_u32_le(b, off + 16)
    &&& p.loop_start as int == spec_u32_le(b, off + 20)
    &&& p.loop_end as int == spec_u32_le(b, off + 24)
    &&& p.volume == b[off + 28]
    &&& p.flags == b[off + 31]
    &&& p.c2spd as int == spec_u32_le(b, off + 32)
    &&& p.title@ == decoded_field(b.subrange(off + 48, off + 76))
}

/// How an OPL instrument record reads out of the bytes at `off`.
pub open spec fn spec_opl_loads(b: Seq<u8>, off: int, o: S3mOplInstr) -> bool {
    &&& o.regs@ == b.subrange(off + 16, off + 28)
    &&& o.volume == b[off + 28]
    &&& o.c2spd as int == spec_u32_le(b, off + 32)
    &&& o.title@ == decoded_field(b.subrange(off + 48, off + 76))
}

/// Why parsing the instrument slot at `off` fails, or `None` when it
/// parses: mirrors the bounds checks, the SCRS / SCRI signature tests
/// and, for a sampled slot, its payload parapointer.
pub open spec fn spec_s3m_instr_check(b: Seq<u8>, off: int) -> Option<CodecError> {
    if off >= b.len() {
        Some(CodecError::Truncated)
    } else {
        let d = b[off];
        if d > 7 {
            if off + 13 > b.len() {
                Some(CodecError::Truncated)
            } else {
                None
            }
        } else if off + 80 > b.len() {
            Some(CodecError::Truncated)
        } else if d >= 2 {
            if b[off + 76] == 0x53 && b[off + 77] == 0x43 && b[off + 78] == 0x52 && b[off + 79]
                == 0x49 {
                None
            } else {
                Some(CodecError::Decode)
            }
        } else if d == 0 {
            None
        } else if !(b[off + 76] == 0x53 && b[off + 77] == 0x43 && b[off + 78] == 0x52 && b[off + 79]
            == 0x53) {
            Some(CodecError::Decode)
        } else if (b[off + 13] * 65536 + spec_u16_le(b, off + 14)) * 16 > b.len() {
            Some(CodecError::Truncated)
        } else {
            None
        }
    }
}

impl S3mMetaInstrument {
    /// Parse one instrument slot at `offset`: the discriminator byte
    /// selects the PCM or OPL layout; type 0 is an empty placeholder kept
    /// to preserve slot numbering, and unknown types become blank
    /// placeholders that keep their file name.
    pub fn new(data: &[u8], offset: usize) -> (r: Result<S3mMetaInstrument, CodecError>)
        ensures
            r matches Ok(mi) ==> {
                &&& offset + 13 <= data@.len()
                &&& mi.discriminator == data@[offset as int]
                &&& mi.filename@ == decoded_field(data@.subrange(offset + 1, offset + 13))
                &&& (match mi.value {
                    S3mInstrument::OplInstrument(o) => 2 <= mi.discriminator <= 7 && o.wf()
                        && spec_opl_loads(data@, offset as int, o),
                    S3mInstrument::PcmInstrument(p) => {
                        &&& (mi.discriminator <= 1 || mi.discriminator > 7)
                        &&& (mi.discriminator <= 1 ==> spec_pcm_loads(data@, offset as int, p))
                        &&& (mi.discriminator > 7 ==> p.ptr_data_h == 0 && p.ptr_data_l == 0
                            && p.len == 0 && p.loop_start == 0 && p.loop_end == 0 && p.volume == 0
                            && p.flags == 0 && p.c2spd == 0 && p.title@.len() == 0)
                    },
                })
                &&& (match mi.sample {
                    Some(d) => mi.discriminator == 1 && (mi.value
                        matches S3mInstrument::PcmInstrument(p) && p.spec_sample_data(data@, d)),
                    Option::None => mi.discriminator != 1,
                })
            },
            r is Err <==> spec_s3m_instr_check(data@, offset as int) is Some,
            r matches Err(e) ==> spec_s3m_instr_check(data@, offset as int) == Some(e),
    {
        if offset >= data.len() {
            return Err(CodecError::Truncated);
        }
        let discriminator = data[offset];
        if discriminator > 7 {
            if data.len() - offset < 13 {
                return Err(CodecError::Truncated);
            }
            let filename = fixed_bytes_to_string(&data[offset + 1..offset + 13]);
            return Ok(
                S3mMetaInstrument {
                    discriminator,
                    filename,
                    value: S3mInstrument::PcmInstrument(
                        S3mPcmInstr {
                            ptr_data_h: 0,
                            ptr_data_l: 0,
                            len: 0,
                            loop_start: 0,
                            loop_end: 0,
                            volume: 0,
                            flags: 0,
                            c2spd: 0,
                            title: String::new(),
                        },
                    ),
                    sample: Option::None,
                },
            );
        }
        if data.len() - offset < 80 {
            return Err(CodecError::Truncated);
        }
        let filename = fixed_bytes_to_string(&data[offset + 1..offset + 13]);
        if discriminator == 0 || discriminator == 1 {
            let pcm = S3mPcmInstr {
                ptr_data_h: data[offset + 13],
                ptr_data_l: read_u16_le(data, offset + 14),
                len: read_u32_le(data, offset + 16),
                loop_start: read_u32_le(data, offset + 20),
                loop_end: read_u32_le(data, offset + 24),
                volume: data[offset + 28],
                flags: data[offset + 31],
                c2spd: read_u32_le(data, offset + 32),
                title: fixed_bytes_to_string(&data[offset + 48..offset + 76]),
            };
            if discriminator == 0 {
                return Ok(
                    S3mMetaInstrument {
                        discriminator,
                        filename,
                        value: S3mInstrument::PcmInstrument(pcm),
                        sample: Option::None,
                    },
                );
            }
            // type 1: a real PCM instrument must carry the SCRS signature
            if data[offset + 76] != 0x53 || data[offset + 77] != 0x43 || data[offset + 78] != 0x52
                || data[offset + 79] != 0x53 {
                return Err(CodecError::Decode);
            }
            let sample = match pcm.get_sample_data(data) {
                Ok(d) => d,
                Err(e) => {
                    return Err(e);
                },
            };
            Ok(
                S3mMetaInstrument {
                    discriminator,
                    filename,
                    value: S3mInstrument::PcmInstrument(pcm),
                    sample: Some(sample),
                },
            )
        } else {
            // types 2..=7: an AdLib instrument must carry the SCRI signature
            if data[offset + 76] != 0x53 || data[offset + 77] != 0x43 || data[offset + 78] != 0x52
                || data[offset + 79] != 0x49 {
                return Err(CodecError::Decode);
            }
            let regs = vstd::slice::slice_to_vec(&data[offset + 16..offset + 28]);
            let opl = S3mOplInstr {
                regs,
                volume: data[offset + 28],
                c2spd: read_u32_le(data, offset + 32),
                title: fixed_bytes_to_string(&data[offset + 48..offset + 76]),
            };
            Ok(
                S3mMetaInstrument {
                    discriminator,
                    filename,
                    value: S3mInstrument::OplInstrument(opl),
                    sample: Option::None,
                },
            )
        }
    }
}

/// Why the packed pattern block at `off` is refused, or `None` when it
/// decodes: the block must hold its own 2-byte length, at least 2.
pub open spec fn spec_s3m_pat_check(b: Seq<u8>, off: int) -> Option<CodecError> {
    if off + 2 > b.len() {
        Some(CodecError::Truncated)
    } else if spec_u16_le(b, off) < 2 || off + spec_u16_le(b, off) > b.len() {
        Some(CodecError::Truncated)
    } else {
        None
    }
}

/// The first error among the instrument slots named by the parapointer
/// table at `base`, scanned in order; `None` when every named slot
/// parses. A zero parapointer names no slot.
pub open spec fn spec_s3m_instrs_err(b: Seq<u8>, base: int, n: int) -> Option<CodecError>
    decreases n,
{
    if n <= 0 {
        None
    } else {
        let off16 = spec_u16_le(b, base);
        if off16 != 0 && spec_s3m_instr_check(b, off16 * 16) is Some {
            spec_s3m_instr_check(b, off16 * 16)
        } else {
            spec_s3m_instrs_err(b, base + 2, n - 1)
        }
    }
}

/// The first error among the pattern blocks named by the parapointer
/// table at `base`; `None` when every named block decodes.
pub open spec fn spec_s3m_pats_err(b: Seq<u8>, base: int, n: int) -> Option<CodecError>
    decreases n,
{
    if n <= 0 {
        None
    } else {
        let off16 = spec_u16_le(b, base);
        if off16 != 0 && spec_s3m_pat_check(b, off16 * 16) is Some {
            spec_s3m_pat_check(b, off16 * 16)
        } else {
            spec_s3m_pats_err(b, base + 2, n - 1)
        }
    }
}

/// How many of the first `n` parapointers of the table at `base` are
/// nonzero: each one yields exactly one record.
pub open spec fn spec_nonzero_prefix(b: Seq<u8>, base: int, n: int) -> int
    decreases n,
{
    if n <= 0 {
        0
    } else {
        spec_nonzero_prefix(b, base, n - 1) + (if spec_u16_le(b, base + 2 * (n - 1)) != 0 {
            1int
        } else {
            0int
        })
    }
}

/// How one instrument slot converts to a unified instrument: a PCM slot
/// becomes a classic one-sample instrument carrying its decoded wave,
/// clamped volume and pitch derived from the sample rate; an OPL slot
/// keeps its spread register block.
pub open spec fn spec_meta_converts(meta: S3mMetaInstrument, r: Instrument) -> bool {
    match meta.value {
        S3mInstrument::PcmInstrument(pcm) => {
            &&& r.name@ == pcm.title@
            &&& !r.muted
            &&& r.instr_type matches InstrumentType::Classic(id) && {
                &&& id.sample@.len() == 1
                &&& ({
                    let s = id.sample@[0];
                    &&& s.name@ == meta.filename@
                    &&& s.loop_start == pcm.loop_start
                    &&& s.loop_length as int == (if pcm.loop_end >= pcm.loop_start {
                        pcm.loop_end - pcm.loop_start
                    } else {
                        0int
                    })
                    &&& s.volume as int == (if pcm.volume > 64 {
                        64int
                    } else {
                        pcm.volume as int
                    })
                    &&& s.finetune == c2spd_finetune(pcm.c2spd as int)
                    &&& s.relative_note == c2spd_relative_note(pcm.c2spd as int)
                    &&& s.flags == (if pcm.flags & 1 != 0 {
                        LoopType::Forward
                    } else {
                        LoopType::No
                    })
                    &&& s.panning == 128
                    &&& (match meta.sample {
                        Some(d) => d.view_eq(s.data),
                        Option::None => (if pcm.flags & 4 != 0 {
                            s.data matches SampleDataType::Depth16(v) && v@.len() == 0
                        } else {
                            s.data matches SampleDataType::Depth8(v) && v@.len() == 0
                        }),
                    })
                })
            }
        },
        S3mInstrument::OplInstrument(opl) => {
            &&& r.name@ == opl.title@
            &&& !r.muted
            &&& r.instr_type matches InstrumentType::Opl(io) && opl.spec_converts(io)
        },
    }
}

impl S3mModule {
    /// Decode one packed cell at `pos`; `None` with the next position
    /// means the row ended.
    pub fn decode_pattern_slot(data: &[u8], pos: usize, end: usize) -> (r: (
        Option<(usize, PatternSlot)>,
        usize,
    ))
        requires
            pos < end <= data@.len(),
        ensures
            ({
                let (cell, p) = r;
                &&& pos < p <= end
                &&& (match cell {
                    Option::None => spec_s3m_cell(data@, pos as int, end as int) is None && p == pos
                        + 1,
                    Some((ch, slot)) => spec_s3m_cell(data@, pos as int, end as int) == Some(
                        (ch as int, slot, p as int),
                    ) && ch < 32,
                })
            }),
    {
        let what = data[pos];
        let mut k = pos + 1;
        if what == 0 {
            return (Option::None, k);
        }
        let channel = (what & 0x1F) as usize;
        let mut slot = PatternSlot::default();
        if what & 0x20 != 0 {
            if k < end {
                let note = data[k];
                slot.note = if note == 254 {
                    Note::KeyOff
                } else if note == 255 {
                    Note::Empty
                } else {
                    proof {
                        assert(note & 0xF <= 0xF) by (bit_vector);
                        assert(note >> 4 <= 0xF) by (bit_vector);
                    }
                    let tmp_note = 1 + (note & 0xF) + 12 * (note >> 4);
                    if tmp_note > 96 {
                        Note::Empty
                    } else {
                        match Note::try_from_value(tmp_note) {
                            Some(n) => n,
                            Option::None => Note::Empty,
                        }
                    }
                };
                k = k + 1;
            }
            if k < end {
                slot.instrument = data[k];
                k = k + 1;
            }
        }
        if what & 0x40 != 0 {
            if k < end {
                slot.volume = data[k];
                if slot.volume > 64 {
                    slot.volume = 64;
                }
                k = k + 1;
            }
        }
        if what & 0x80 != 0 {
            if k < end {
                slot.effect_type = data[k];
                k = k + 1;
            }
            if k < end {
                slot.effect_parameter = data[k];
                k = k + 1;
            }
        }
        proof {
            assert(what & 0x1F < 32) by (bit_vector);
        }
        (Some((channel, slot)), k)
    }

    /// Decode one row of packed cells starting at `pos`: a 32-channel row
    /// whose addressed cells are filled in, and the position after the
    /// row.
    pub fn process_pattern_row(data: &[u8], pos: usize, end: usize) -> (r: Result<
        (Vec<PatternSlot>, usize),
        CodecError,
    >)
        requires
            pos <= end <= data@.len(),
        ensures
            r matches Ok((row, p)) ==> {
                &&& row@.len() == 32
                &&& pos <= p <= end
                &&& (pos < end ==> p > pos)
                &&& (row@, p as int) == spec_s3m_row(
                    data@,
                    pos as int,
                    end as int,
                    spec_empty_s3m_row(),
                )
            },
            r is Ok,
    {
        let mut pss: Vec<PatternSlot> = Vec::new();
        let mut t: usize = 0;
        while t < 32
            invariant
                t <= 32,
                pss@.len() == t,
                forall|j: int| 0 <= j < t ==> pss@[j] == PatternSlot::spec_default(),
            decreases 32 - t,
        {
            pss.push(PatternSlot::default());
            t = t + 1;
        }
        proof {
            assert(pss@ =~= spec_empty_s3m_row());
        }
        let mut cur = pos;
        let ghost target = spec_s3m_row(data@, pos as int, end as int, spec_empty_s3m_row());
        while cur < end
            invariant
                pos <= cur <= end <= data@.len(),
                pss@.len() == 32,
                target == spec_s3m_row(data@, pos as int, end as int, spec_empty_s3m_row()),
                spec_s3m_row(data@, cur as int, end as int, pss@) == target,
            decreases end - cur,
        {
            let (cell, p) = Self::decode_pattern_slot(data, cur, end);
            match cell {
                Some((channel, slot)) => {
                    pss.set(channel, slot);
                    cur = p;
                },
                Option::None => {
                    cur = p;
                    proof {
                        assert((pss@, cur as int) == target);
                    }
                    return Ok((pss, cur));
                },
            }
        }
        Ok((pss, cur))
    }

    /// The reason loading the file fails, or `None` when it loads: the
    /// fixed header checks in file order, then the first bad instrument
    /// slot, then the first bad pattern block.
    pub open spec fn spec_load_check(b: Seq<u8>) -> Option<CodecError> {
        let oc = spec_u16_le(b, 32);
        let ic = spec_u16_le(b, 34);
        let pc = spec_u16_le(b, 36);
        let after_order = 96 + oc;
        let after_instr = 96 + oc + 2 * ic;
        if b.len() < 96 {
            Some(CodecError::Truncated)
        } else if b[28] != 0x1A || b[29] != 0x10 || b[44] != 0x53 || b[45] != 0x43 || b[46] != 0x52
            || b[47] != 0x4D {
            Some(CodecError::FormatMismatch)
        } else if after_order > b.len() || after_order + 2 * ic > b.len() || after_instr + 2 * pc
            > b.len() {
            Some(CodecError::Truncated)
        } else if spec_s3m_instrs_err(b, after_order, ic) is Some {
            spec_s3m_instrs_err(b, after_order, ic)
        } else {
            spec_s3m_pats_err(b, after_instr, pc)
        }
    }

    /// Load a whole S3M file. Every instrument slot and pattern block
    /// comes from a nonzero parapointer of its table, in table order;
    /// zero entries yield nothing.
    pub fn load(ser_s3m_module: &[u8]) -> (r: Result<S3mModule, CodecError>)
        ensures
            r matches Ok(m) ==> {
                &&& ser_s3m_module@.len() >= 96
                &&& ser_s3m_module@[28] == 0x1A
                &&& ser_s3m_module@[29] == 0x10
                &&& ser_s3m_module@.subrange(44, 48) =~= seq![0x53u8, 0x43u8, 0x52u8, 0x4Du8]
                &&& m.header.title@ == decoded_field(ser_s3m_module@.subrange(0, 28))
                &&& m.header.order_count as int == spec_u16_le(ser_s3m_module@, 32)
                &&& m.header.instrument_count as int == spec_u16_le(ser_s3m_module@, 34)
                &&& m.header.pattern_count as int == spec_u16_le(ser_s3m_module@, 36)
                &&& m.header.speed == ser_s3m_module@[49]
                &&& m.header.tempo == ser_s3m_module@[50]
                &&& m.positions@ == spec_positions(
                    ser_s3m_module@.subrange(96, 96 + m.header.order_count),
                )
                &&& m.instruments@.len() == spec_nonzero_prefix(
                    ser_s3m_module@,
                    96 + m.header.order_count as int,
                    m.header.instrument_count as int,
                )
                &&& m.patterns@.len() == spec_nonzero_prefix(
                    ser_s3m_module@,
                    96 + m.header.order_count + 2 * m.header.instrument_count,
                    m.header.pattern_count as int,
                )
                &&& m.instruments@.len() <= m.header.instrument_count
                &&& m.patterns@.len() <= m.header.pattern_count
                &&& forall|i: int|
                    0 <= i < m.patterns@.len() ==> crate::module::pattern_is_rect(
                        #[trigger] m.patterns@[i],
                        32,
                    )
            },
            r is Err <==> Self::spec_load_check(ser_s3m_module@) is Some,
            r matches Err(e) ==> Self::spec_load_check(ser_s3m_module@) == Some(e),
    {
        let data = ser_s3m_module;
        if data.len() < 96 {
            return Err(CodecError::Truncated);
        }
        if data[28] != 0x1A || data[29] != 0x10 {
            return Err(CodecError::FormatMismatch);
        }
        if data[44] != 0x53 || data[45] != 0x43 || data[46] != 0x52 || data[47] != 0x4D {
            return Err(CodecError::FormatMismatch);
        }
        let header = S3mHeader {
            title: fixed_bytes_to_string(&data[0..28]),
            sig1: data[28],
            song_type: data[29],
            order_count: read_u16_le(data, 32),
            instrument_count: read_u16_le(data, 34),
            pattern_count: read_u16_le(data, 36),
            flags: read_u16_le(data, 38),
            version: read_u16_le(data, 40),
            sample_type: read_u16_le(data, 42),
            speed: data[49],
            tempo: data[50],
            global_volume: data[48],
            master_volume: data[51],
        };
        let order_count = header.order_count as usize;
        if data.len() - 96 < order_count {
            return Err(CodecError::Truncated);
        }
        let raw_order: &[u8] = &data[96..96 + order_count];
        let mut filtered: Vec<u8> = Vec::new();
        let mut i: usize = 0;
        while i < order_count
            invariant
                order_count == raw_order@.len(),
                i <= order_count,
                filtered@ =~= spec_drop_separators(raw_order@.take(i as int)),
            decreases order_count - i,
        {
            proof {
                assert(raw_order@.take(i + 1).drop_last() =~= raw_order@.take(i as int));
            }
            let b = raw_order[i];
            if b != 254 {
                filtered.push(b);
            }
            i = i + 1;
        }
        proof {
            assert(raw_order@.take(order_count as int) =~= raw_order@);
        }
        let mut eos: usize = 0;
        while eos < filtered.len() && filtered[eos] != 255
            invariant
                eos <= filtered@.len(),
                forall|j: int| 0 <= j < eos ==> filtered@[j] != 255,
            decreases filtered@.len() - eos,
        {
            eos = eos + 1;
        }
        proof {
            lemma_first_eos_index(filtered@, eos as int);
        }
        let mut positions = filtered;
        positions.truncate(eos);
        proof {
            assert(positions@ =~= spec_positions(raw_order@));
        }
        // parapointer tables
        let icount = header.instrument_count as usize;
        let pcount = header.pattern_count as usize;
        let after_order = 96 + order_count;
        if data.len() - after_order < 2 * icount {
            return Err(CodecError::Truncated);
        }
        let after_instr = after_order + 2 * icount;
        if data.len() - after_instr < 2 * pcount {
            return Err(CodecError::Truncated);
        }
        let mut instruments: Vec<S3mMetaInstrument> = Vec::new();
        let mut k: usize = 0;
        while k < icount
            invariant
                k <= icount,
                data@ == ser_s3m_module@,
                data@.len() >= 96,
                data@[28] == 0x1A,
                data@[29] == 0x10,
                data@[44] == 0x53,
                data@[45] == 0x43,
                data@[46] == 0x52,
                data@[47] == 0x4D,
                96 + spec_u16_le(data@, 32) <= data@.len(),
                96 + spec_u16_le(data@, 32) + 2 * spec_u16_le(data@, 34) <= data@.len(),
                96 + spec_u16_le(data@, 32) + 2 * spec_u16_le(data@, 34) + 2 * spec_u16_le(
                    data@,
                    36,
                ) <= data@.len(),
                instruments@.len() == spec_nonzero_prefix(data@, after_order as int, k as int),
                instruments@.len() <= k,
                after_order + 2 * icount <= data@.len(),
                icount == spec_u16_le(data@, 34),
                after_order == 96 + spec_u16_le(data@, 32),
                spec_s3m_instrs_err(data@, after_order as int, icount as int)
                    == spec_s3m_instrs_err(data@, after_order + 2 * k, icount - k),
            decreases icount - k,
        {
            let off16 = read_u16_le(data, after_order + 2 * k) as usize;
            if off16 != 0 {
                let offset = off16 * 16;
                match S3mMetaInstrument::new(data, offset) {
                    Ok(mi) => {
                        instruments.push(mi);
                    },
                    Err(e) => {
                        proof {
                            assert(spec_s3m_instrs_err(data@, after_order + 2 * k, icount - k)
                                == Some(e));
                            assert(Self::spec_load_check(data@) == Some(e));
                        }
                        return Err(e);
                    },
                }
            }
            proof {
                assert(spec_nonzero_prefix(data@, after_order as int, k + 1)
                    == spec_nonzero_prefix(data@, after_order as int, k as int) + (if spec_u16_le(
                    data@,
                    after_order + 2 * k,
                ) != 0 {
                    1int
                } else {
                    0int
                }));
                assert(spec_s3m_instrs_err(data@, after_order + 2 * k, icount - k)
                    == spec_s3m_instrs_err(data@, after_order + 2 * (k + 1), icount - (k + 1)));
            }
            k = k + 1;
        }
        proof {
            assert(spec_s3m_instrs_err(data@, after_order as int, icount as int) is None);
        }
        let mut patterns: Vec<Pattern> = Vec::new();
        let mut k2: usize = 0;
        while k2 < pcount
            invariant
                k2 <= pcount,
                data@ == ser_s3m_module@,
                data@.len() >= 96,
                data@[28] == 0x1A,
                data@[29] == 0x10,
                data@[44] == 0x53,
                data@[45] == 0x43,
                data@[46] == 0x52,
                data@[47] == 0x4D,
                96 + spec_u16_le(data@, 32) <= data@.len(),
                96 + spec_u16_le(data@, 32) + 2 * spec_u16_le(data@, 34) <= data@.len(),
                96 + spec_u16_le(data@, 32) + 2 * spec_u16_le(data@, 34) + 2 * spec_u16_le(
                    data@,
                    36,
                ) <= data@.len(),
                patterns@.len() == spec_nonzero_prefix(data@, after_instr as int, k2 as int),
                patterns@.len() <= k2,
                after_instr + 2 * pcount <= data@.len(),
                pcount == spec_u16_le(data@, 36),
                after_instr == 96 + spec_u16_le(data@, 32) + 2 * spec_u16_le(data@, 34),
                spec_s3m_instrs_err(
                    data@,
                    96 + spec_u16_le(data@, 32),
                    spec_u16_le(data@, 34),
                ) is None,
                spec_s3m_pats_err(data@, after_instr as int, pcount as int) == spec_s3m_pats_err(
                    data@,
                    after_instr + 2 * k2,
                    pcount - k2,
                ),
                forall|i2: int|
                    0 <= i2 < patterns@.len() ==> crate::module::pattern_is_rect(
                        #[trigger] patterns@[i2],
                        32,
                    ),
            decreases pcount - k2,
        {
            let off16 = read_u16_le(data, after_instr + 2 * k2) as usize;
            if off16 != 0 {
                let offset = off16 * 16;
                if offset > data.len() || data.len() - offset < 2 {
                    proof {
                        assert(spec_s3m_pat_check(data@, offset as int) == Some(
                            CodecError::Truncated,
                        ));
                        assert(spec_s3m_pats_err(data@, after_instr + 2 * k2, pcount - k2) == Some(
                            CodecError::Truncated,
                        ));
                    }
                    return Err(CodecError::Truncated);
                }
                let blen = read_u16_le(data, offset) as usize;
                if blen < 2 || data.len() - offset < blen {
                    proof {
                        assert(spec_s3m_pat_check(data@, offset as int) == Some(
                            CodecError::Truncated,
                        ));
                        assert(spec_s3m_pats_err(data@, after_instr + 2 * k2, pcount - k2) == Some(
                            CodecError::Truncated,
                        ));
                    }
                    return Err(CodecError::Truncated);
                }
                let start = offset + 2;
                let end = offset + blen;
                let mut cur = start;
                let mut pattern: Vec<Vec<PatternSlot>> = Vec::new();
                while cur < end
                    invariant
                        start <= cur <= end <= data@.len(),
                        forall|i2: int|
                            0 <= i2 < pattern@.len() ==> (#[trigger] pattern@[i2])@.len() == 32,
                    decreases end - cur,
                {
                    match Self::process_pattern_row(data, cur, end) {
                        Ok((row, p)) => {
                            pattern.push(row);
                            cur = p;
                        },
                        Err(e) => {
                            return Err(e);
                        },
                    }
                }
                proof {
                    assert(pattern@.len() > 0 ==> pattern@[0]@.len() == 32);
                }
                S3mEffect::update_pattern(&mut pattern);
                proof {
                    assert(crate::module::pattern_is_rect(pattern, 32));
                    assert(spec_s3m_pat_check(data@, offset as int) is None);
                }
                patterns.push(pattern);
            }
            proof {
                assert(spec_nonzero_prefix(data@, after_instr as int, k2 + 1)
                    == spec_nonzero_prefix(data@, after_instr as int, k2 as int) + (if spec_u16_le(
                    data@,
                    after_instr + 2 * k2,
                ) != 0 {
                    1int
                } else {
                    0int
                }));
                assert(spec_s3m_pats_err(data@, after_instr + 2 * k2, pcount - k2)
                    == spec_s3m_pats_err(data@, after_instr + 2 * (k2 + 1), pcount - (k2 + 1)));
            }
            k2 = k2 + 1;
        }
        proof {
            assert(spec_s3m_pats_err(data@, after_instr as int, pcount as int) is None);
            assert(Self::spec_load_check(data@) is None);
        }
        Ok(S3mModule { header, positions, instruments, patterns })
    }

    /// Convert to the unified module: linear frequencies, PCM slots become
    /// classic one-sample instruments with their pitch derived from the
    /// sample rate, OPL slots keep their register block.
    pub fn to_module(&self) -> (r: Module)
        requires
            forall|i: int|
                0 <= i < self.instruments@.len() ==> ((#[trigger] self.instruments@[i]).value
                    matches S3mInstrument::OplInstrument(o) ==> o.wf()),
        ensures
            r.name@ == self.header.title@,
            r.frequency_type == FrequencyType::LinearFrequencies,
            r.default_tempo as int == self.header.speed as int,
            r.default_bpm as int == self.header.tempo as int,
            r.pattern_order@.len() == self.positions@.len(),
            forall|i: int|
                0 <= i < r.pattern_order@.len() ==> r.pattern_order@[i] == self.positions@[i]
                    as usize,
            r.pattern@.len() == self.patterns@.len(),
            forall|i: int|
                0 <= i < r.pattern@.len() ==> crate::module::pattern_view(#[trigger] r.pattern@[i])
                    == crate::module::pattern_view(self.patterns@[i]),
            r.instrument@.len() == self.instruments@.len(),
            forall|i: int|
                0 <= i < r.instrument@.len() ==> spec_meta_converts(
                    #[trigger] self.instruments@[i],
                    r.instrument@[i],
                ),
    {
        let mut pattern_order: Vec<usize> = Vec::new();
        let n_pos = self.positions.len();
        let mut i: usize = 0;
        while i < n_pos
            invariant
                n_pos == self.positions@.len(),
                i <= n_pos,
                pattern_order@.len() == i,
                forall|j: int|
                    0 <= j < i ==> pattern_order@[j] == self.positions@[j] as usize,
            decreases n_pos - i,
        {
            pattern_order.push(self.positions[i] as usize);
            i = i + 1;
        }
        let npat = self.patterns.len();
        let mut pattern: Vec<Pattern> = Vec::new();
        let mut j: usize = 0;
        while j < npat
            invariant
                npat == self.patterns@.len(),
                j <= npat,
                pattern@.len() == j,
                forall|k: int|
                    0 <= k < j ==> crate::module::pattern_view(#[trigger] pattern@[k])
                        == crate::module::pattern_view(self.patterns@[k]),
            decreases npat - j,
        {
            let src: &Pattern = &self.patterns[j];
            let nrows = src.len();
            let mut p: Pattern = Vec::new();
            let mut k: usize = 0;
            while k < nrows
                invariant
                    nrows == src@.len(),
                    k <= nrows,
                    p@.len() == k,
                    forall|t: int| 0 <= t < k ==> (#[trigger] p@[t])@ == src@[t]@,
                decreases nrows - k,
            {
                let row = src[k].clone();
                assert(row@ =~= src@[k as int]@);
                p.push(row);
                k = k + 1;
            }
            proof {
                assert(crate::module::pattern_view(p) =~= crate::module::pattern_view(*src));
            }
            pattern.push(p);
            j = j + 1;
        }
        let ninstr = self.instruments.len();
        let mut instrument: Vec<Instrument> = Vec::new();
        let mut t: usize = 0;
        while t < ninstr
            invariant
                ninstr == self.instruments@.len(),
                t <= ninstr,
                forall|k: int|
                    0 <= k < ninstr ==> ((#[trigger] self.instruments@[k]).value
                        matches S3mInstrument::OplInstrument(o) ==> o.wf()),
                instrument@.len() == t,
                forall|k: int|
                    0 <= k < t ==> spec_meta_converts(
                        #[trigger] self.instruments@[k],
                        instrument@[k],
                    ),
            decreases ninstr - t,
        {
            let meta: &S3mMetaInstrument = &self.instruments[t];
            match &meta.value {
                S3mInstrument::PcmInstrument(pcm) => {
                    let data: SampleDataType = match &meta.sample {
                        Some(SampleDataType::Depth8(d)) => {
                            let w = d.clone();
                            assert(w@ =~= d@);
                            SampleDataType::Depth8(w)
                        },
                        Some(SampleDataType::Depth16(d)) => {
                            let w = d.clone();
                            assert(w@ =~= d@);
                            SampleDataType::Depth16(w)
                        },
                        Option::None => {
                            if pcm.flags & 4 != 0 {
                                SampleDataType::Depth16(Vec::new())
                            } else {
                                SampleDataType::Depth8(Vec::new())
                            }
                        },
                    };
                    let (relative_note, finetune) = c2spd_to_relnote(pcm.c2spd);
                    let loop_length = if pcm.loop_end >= pcm.loop_start {
                        pcm.loop_end - pcm.loop_start
                    } else {
                        0
                    };
                    let sample = Sample {
                        name: crate::fixedstr::clone_string(&meta.filename),
                        loop_start: pcm.loop_start,
                        loop_length,
                        volume: if pcm.volume > 64 {
                            64
                        } else {
                            pcm.volume
                        },
                        finetune,
                        flags: if pcm.flags & 1 != 0 {
                            LoopType::Forward
                        } else {
                            LoopType::No
                        },
                        panning: 128,
                        relative_note,
                        data,
                    };
                    let mut instr_def = InstrDefault::default();
                    instr_def.sample.push(sample);
                    let instr = Instrument {
                        name: crate::fixedstr::clone_string(&pcm.title),
                        instr_type: InstrumentType::Classic(instr_def),
                        muted: false,
                    };
                    instrument.push(instr);
                },
                S3mInstrument::OplInstrument(opl) => {
                    let instr = Instrument {
                        name: crate::fixedstr::clone_string(&opl.title),
                        instr_type: InstrumentType::Opl(opl.to_instr_opl()),
                        muted: false,
                    };
                    instrument.push(instr);
                },
            }
            t = t + 1;
        }
        Module {
            name: crate::fixedstr::clone_string(&self.header.title),
            comment: String::new(),
            frequency_type: FrequencyType::LinearFrequencies,
            restart_position: 0,
            default_tempo: self.header.speed as u16,
            default_bpm: self.header.tempo as u16,
            pattern_order,
            pattern,
            instrument,
        }
    }
}

/// A fresh 32-channel row of empty cells.
pub open spec fn spec_empty_s3m_row() -> Seq<PatternSlot> {
    Seq::new(32, |i: int| PatternSlot::spec_default())
}

/// The 16-bit fixed-point base-2 logarithm of `x`: the value
/// `65536 * log2(x)` rounded down, computed by normalization and
/// repeated squaring.
pub open spec fn spec_log2_fp(x: int) -> int {
    spec_log2_frac(spec_msb_norm(x), 16) + 65536 * spec_msb(x)
}

/// The index of the highest set bit of `x`.
pub open spec fn spec_msb(x: int) -> int
    decreases x,
{
    if x < 2 {
        0
    } else {
        1 + spec_msb(x / 2)
    }
}

/// `x` normalized into `[2^31, 2^32)` by shifting its highest bit up.
pub open spec fn spec_msb_norm(x: int) -> int
    decreases 0x1_0000_0000 - x,
{
    if x <= 0 {
        0
    } else if x < 0x8000_0000 {
        spec_msb_norm(2 * x)
    } else {
        x
    }
}

/// `bits` fractional bits of `log2(m / 2^31)` for `m` in `[2^31, 2^32)`,
/// by repeated squaring.
pub open spec fn spec_log2_frac(m: int, bits: int) -> int
    decreases bits,
{
    if bits <= 0 {
        0
    } else {
        let m2 = (m * m) / 0x8000_0000;
        if m2 >= 0x1_0000_0000 {
            spec_log2_frac(m2 / 2, bits - 1) + pow2_int(bits - 1)
        } else {
            spec_log2_frac(m2, bits - 1)
        }
    }
}

/// Two to the power `n`.
pub open spec fn pow2_int(n: int) -> int
    decreases n,
{
    if n <= 0 {
        1
    } else {
        2 * pow2_int(n - 1)
    }
}

/// Powers of two grow with the exponent.
proof fn lemma_pow2_le(a: int, b: int)
    requires
        a <= b,
    ensures
        pow2_int(a) <= pow2_int(b),
    decreases b - a,
{
    if a < b {
        if b <= 0 {
        } else {
            lemma_pow2_le(a, b - 1);
            lemma_pow2_pos(b - 1);
            assert(pow2_int(b) == 2 * pow2_int(b - 1));
        }
    }
}

/// The highest-bit index is never negative.
proof fn lemma_msb_nonneg(x: int)
    ensures
        spec_msb(x) >= 0,
    decreases x,
{
    if x >= 2 {
        lemma_msb_nonneg(x / 2);
    }
}

/// A value below a power of two has its highest bit below that exponent.
proof fn lemma_msb_lt(x: int, b: int)
    requires
        1 <= b,
        x < pow2_int(b),
    ensures
        spec_msb(x) < b,
    decreases x,
{
    if x >= 2 {
        assert(pow2_int(b) == 2 * pow2_int(b - 1));
        assert(x / 2 < pow2_int(b - 1));
        if b - 1 >= 1 {
            lemma_msb_lt(x / 2, b - 1);
        } else {
            assert(pow2_int(0) == 1);
        }
    }
}

/// Powers of two are positive.
proof fn lemma_pow2_pos(n: int)
    ensures
        pow2_int(n) >= 1,
    decreases n,
{
    if n > 0 {
        lemma_pow2_pos(n - 1);
    }
}

/// The pitch offset of a sample rate from the 8363 Hz middle C, in 1/128
/// semitone steps: `1536 * (log2(c2spd) - log2(8363))` rounded, clamped
/// to the representable eight octaves either way.
pub open spec fn spec_c2spd_offset128(c2spd: int) -> int {
    if c2spd <= 0 {
        0
    } else {
        let d = 1536 * (spec_log2_fp(c2spd) - spec_log2_fp(8363));
        let r = (d + 32768) / 65536;
        if r < -12288 {
            -12288
        } else if r > 12160 {
            12160
        } else {
            r
        }
    }
}

/// The whole-semitone part of the pitch offset of a sample rate.
pub open spec fn c2spd_relative_note(c2spd: int) -> i8 {
    let v = spec_c2spd_offset128(c2spd);
    ((v + 64) / 128) as i8
}

/// The remaining fraction of the pitch offset of a sample rate, in 1/128
/// semitone steps.
pub open spec fn c2spd_finetune(c2spd: int) -> i8 {
    let v = spec_c2spd_offset128(c2spd);
    (v - 128 * ((v + 64) / 128)) as i8
}

/// The fixed-point base-2 logarithm, 16 fractional bits.
fn log2_fp(x: u32) -> (r: u64)
    requires
        x >= 1,
    ensures
        r as int == spec_log2_fp(x as int),
        r < 0x40_0000,
{
    proof {
        lemma_msb_nonneg(x as int);
        reveal_with_fuel(pow2_int, 34);
        assert(pow2_int(32) == 0x1_0000_0000);
        lemma_msb_lt(x as int, 32);
    }
    let mut e: u64 = 0;
    let mut v: u32 = x;
    while v >= 2
        invariant
            v >= 1,
            spec_msb(x as int) == spec_msb(v as int) + e,
            e <= spec_msb(x as int),
            spec_msb(x as int) <= 31,
        decreases v,
    {
        proof {
            lemma_msb_nonneg(v as int / 2);
        }
        v = v / 2;
        e = e + 1;
    }
    proof {
        assert(e <= 31);
    }
    let mut m: u64 = x as u64;
    while m < 0x8000_0000
        invariant
            1 <= m < 0x1_0000_0000,
            spec_msb_norm(x as int) == spec_msb_norm(m as int),
        decreases 0x1_0000_0000u64 - m,
    {
        proof {
            assert(spec_msb_norm(m as int) == spec_msb_norm(2 * m as int));
        }
        m = 2 * m;
    }
    let ghost norm = spec_msb_norm(x as int);
    proof {
        assert(spec_msb_norm(m as int) == m as int);
    }
    let mut frac: u64 = 0;
    let mut bits: u64 = 16;
    while bits > 0
        invariant
            0x8000_0000 <= m < 0x1_0000_0000,
            bits <= 16,
            norm == spec_msb_norm(x as int),
            frac * pow2_int(bits as int) + spec_log2_frac(m as int, bits as int) == spec_log2_frac(
                norm,
                16,
            ),
            frac < pow2_int(16 - bits),
        decreases bits,
    {
        let ghost m0 = m as int;
        let ghost b0 = bits as int;
        let ghost fr0 = frac as int;
        proof {
            lemma_pow2_le(16 - b0, 16);
            reveal_with_fuel(pow2_int, 17);
            assert(pow2_int(16) == 65536);
            assert(frac < 65536);
            assert(m * m <= 0xFFFF_FFFFu64 * 0xFFFF_FFFFu64) by (nonlinear_arith)
                requires
                    m <= 0xFFFF_FFFFu64,
            ;
            assert(m * m >= 0x4000_0000_0000_0000) by (nonlinear_arith)
                requires
                    m >= 0x8000_0000,
            ;
        }
        let sq: u64 = m * m;
        let m2: u64 = sq / 0x8000_0000;
        proof {
            assert(m2 >= 0x8000_0000);
            assert(m2 < 0x2_0000_0000);
            assert(pow2_int(b0) == 2 * pow2_int(b0 - 1));
            assert(pow2_int(16 - (b0 - 1)) == 2 * pow2_int(16 - b0));
        }
        if m2 >= 0x1_0000_0000 {
            m = m2 / 2;
            frac = 2 * frac + 1;
            proof {
                assert((2 * fr0 + 1) * pow2_int(b0 - 1) == fr0 * (2 * pow2_int(b0 - 1)) + pow2_int(
                    b0 - 1,
                )) by (nonlinear_arith);
            }
        } else {
            m = m2;
            frac = 2 * frac;
            proof {
                assert((2 * fr0) * pow2_int(b0 - 1) == fr0 * (2 * pow2_int(b0 - 1)))
                    by (nonlinear_arith);
            }
        }
        bits = bits - 1;
    }
    proof {
        reveal_with_fuel(pow2_int, 17);
        assert(pow2_int(16) == 65536);
        assert(frac < 65536);
        assert(pow2_int(0) == 1);
        assert(frac * 1 == frac) by (nonlinear_arith);
    }
    frac + 65536 * e
}

/// Floor division of a small signed value by a positive divisor.
fn div_floor(x: i64, d: i64) -> (r: i64)
    requires
        0 < d <= 0x1_0000_0000,
        -0x1_0000_0000_0000i64 <= x <= 0x1_0000_0000_0000i64,
    ensures
        r as int == x as int / d as int,
{
    if x >= 0 {
        let q = x / d;
        proof {
            assert(q as int == x as int / d as int);
        }
        q
    } else {
        let q = -((-x + (d - 1)) / d);
        proof {
            vstd::arithmetic::div_mod::lemma_fundamental_div_mod(x as int, d as int);
            vstd::arithmetic::div_mod::lemma_fundamental_div_mod((-x + (d - 1)) as int, d as int);
            assert(q as int == x as int / d as int) by (nonlinear_arith)
                requires
                    d > 0,
                    x as int == d * (x as int / d as int) + (x as int) % (d as int),
                    0 <= (x as int) % (d as int) < d,
                    (-x + (d - 1)) as int == d * ((-x + (d - 1)) as int / d as int) + ((-x + (d
                        - 1)) as int) % (d as int),
                    0 <= ((-x + (d - 1)) as int) % (d as int) < d,
                    q as int == -((-x + (d - 1)) as int / d as int),
            ;
        }
        q
    }
}

/// The pitch offset of a sample rate, split into a whole semitone count
/// and a finetune fraction.
fn c2spd_to_relnote(c2spd: u32) -> (r: (i8, i8))
    ensures
        r.0 == c2spd_relative_note(c2spd as int),
        r.1 == c2spd_finetune(c2spd as int),
{
    if c2spd == 0 {
        return (0, 0);
    }
    let la = log2_fp(c2spd);
    let lb = log2_fp(8363);
    let d: i64 = 1536 * (la as i64 - lb as i64);
    let r0: i64 = div_floor(d + 32768, 65536);
    let v: i64 = if r0 < -12288 {
        -12288
    } else if r0 > 12160 {
        12160
    } else {
        r0
    };
    let n: i64 = div_floor(v + 64, 128);
    let f: i64 = v - 128 * n;
    proof {
        assert(-12288 <= v <= 12160);
        vstd::arithmetic::div_mod::lemma_fundamental_div_mod((v + 64) as int, 128);
        assert(-97 <= n <= 95 && -64 <= f <= 63) by (nonlinear_arith)
            requires
                -12288 <= v <= 12160,
                n as int == (v as int + 64) / 128,
                f == v - 128 * n,
                (v as int + 64) == 128 * ((v as int + 64) / 128) + ((v as int + 64) % 128),
                0 <= (v as int + 64) % 128 < 128,
        ;
    }
    (n as i8, f as i8)
}

} // verus!
