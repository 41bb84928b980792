//! The fixed 30-byte sample header of an Amiga MOD file.

use vstd::prelude::*;

use crate::cursor::read_u16_be;
use crate::cursor::spec_u16_be;
use crate::error::CodecError;
use crate::fixedstr::decoded_field;
use crate::fixedstr::fixed_bytes_to_string;
use crate::sample::LoopType;
use crate::sample::Sample;
use crate::sample::SampleDataType;

verus! {

/// One MOD sample header. The three length fields are historically
/// stored big-endian in words; they are kept here in bytes.
#[derive(Clone, Debug, PartialEq)]
pub struct AmigaSample {
    /// Sample name, 22 bytes on disk.
    pub name: String,
    /// Sample length in bytes.
    pub length: u16,
    /// Finetune nibble.
    pub finetune: u8,
    /// Volume, 0..=64.
    pub volume: u8,
    /// Loop start in bytes.
    pub repeat_offset: u16,
    /// Loop length in bytes.
    pub repeat_length: u16,
}

/// A stored word count doubled into a byte count, wrapping as the
/// original 16-bit arithmetic did.
pub open spec fn spec_words_to_bytes(v: int) -> int {
    (2 * v) % 65536
}

impl AmigaSample {
    /// Read one 30-byte sample header at `pos`: a 22-byte name, then the
    /// big-endian word counts doubled into byte counts.
    pub fn load(data: &[u8], pos: usize) -> (r: Result<(AmigaSample, usize), CodecError>)
        ensures
            r matches Ok((s, p)) ==> {
                &&& pos + 30 <= data@.len()
                &&& p == pos + 30
                &&& s.name@ == decoded_field(data@.subrange(pos as int, pos + 22))
                &&& s.length as int == spec_words_to_bytes(spec_u16_be(data@, pos + 22))
                &&& s.finetune == data@[pos + 24]
                &&& s.volume == data@[pos + 25]
                &&& s.repeat_offset as int == spec_words_to_bytes(spec_u16_be(data@, pos + 26))
                &&& s.repeat_length as int == spec_words_to_bytes(spec_u16_be(data@, pos + 28))
            },
            r is Err <==> pos + 30 > data@.len(),
    {
        if pos > data.len() || data.len() - pos < 30 {
            return Err(CodecError::Truncated);
        }
        let s = AmigaSample {
            name: fixed_bytes_to_string(&data[pos..pos + 22]),
            length: read_u16_be(data, pos + 22).wrapping_mul(2),
            finetune: data[pos + 24],
            volume: data[pos + 25],
            repeat_offset: read_u16_be(data, pos + 26).wrapping_mul(2),
            repeat_length: read_u16_be(data, pos + 28).wrapping_mul(2),
        };
        Ok((s, pos + 30))
    }

    /// Convert to a unified sample without wave data: out-of-range loop
    /// bounds are zeroed, never rejected, and a loop shorter than 3 bytes
    /// counts as no loop.
    pub fn to_sample(&self) -> (r: Sample)
        ensures
            r.name@ == self.name@,
            r.finetune == ((self.finetune as int * 16) % 256) as u8 as i8,
            r.volume == self.volume,
            r.panning == 128,
            r.relative_note == 0,
            r.loop_start as int == (if self.repeat_offset < self.length {
                self.repeat_offset as int
            } else {
                0
            }),
            r.loop_length as int == ({
                let ro = if self.repeat_offset < self.length {
                    self.repeat_offset as int
                } else {
                    0
                };
                if ro + self.repeat_length <= self.length {
                    self.repeat_length as int
                } else {
                    0
                }
            }),
            r.flags == (if r.loop_length > 2 {
                LoopType::Forward
            } else {
                LoopType::No
            }),
            r.data matches SampleDataType::Depth8(v) && v@.len() == 0,
    {
        let f: i8 = self.finetune.wrapping_mul(16) as i8;
        let ro: u16 = if self.repeat_offset < self.length {
            self.repeat_offset
        } else {
            0
        };
        let rl: u16 = if ro as u32 + self.repeat_length as u32 <= self.length as u32 {
            self.repeat_length
        } else {
            0
        };
        let flag = if rl > 2 {
            LoopType::Forward
        } else {
            LoopType::No
        };
        Sample {
            name: crate::fixedstr::clone_string(&self.name),
            loop_start: ro as u32,
            loop_length: rl as u32,
            volume: self.volume,
            finetune: f,
            flags: flag,
            panning: 128,
            relative_note: 0,
            data: SampleDataType::Depth8(Vec::new()),
        }
    }
}

} // verus!
