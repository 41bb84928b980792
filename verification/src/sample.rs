//! A recorded wave with its loop and playback parameters.

use vstd::prelude::*;

verus! {

/// How to play a sample once its loop region is reached.
#[derive(Copy, Clone, Debug, PartialEq, Eq, Structural)]
pub enum LoopType {
    /// Play once, no loop.
    No,
    /// Loop forward from the loop start.
    Forward,
    /// Bounce back and forth inside the loop region.
    PingPong,
}

impl Default for LoopType {
    fn default() -> (r: Self)
        ensures
            r == LoopType::No,
    {
        LoopType::No
    }
}

impl LoopType {
    /// The XM flag bits of a loop type.
    pub open spec fn spec_raw(self) -> u8 {
        match self {
            LoopType::No => 0,
            LoopType::Forward => 1,
            LoopType::PingPong => 2,
        }
    }

    /// The loop type named by the low flag bits of an XM sample header.
    /// Flag value 3 is folded to ping-pong as historical loaders did.
    pub open spec fn spec_from_raw(v: u8) -> LoopType {
        match v & 0b11 {
            1 => LoopType::Forward,
            2 => LoopType::PingPong,
            3 => LoopType::PingPong,
            _ => LoopType::No,
        }
    }

    /// The XM flag bits of this loop type.
    pub fn raw(&self) -> (r: u8)
        ensures
            r == self.spec_raw(),
    {
        match *self {
            LoopType::No => 0,
            LoopType::Forward => 1,
            LoopType::PingPong => 2,
        }
    }

    /// Recover a loop type from the low two bits of an XM flags byte.
    pub fn from_raw(v: u8) -> (r: LoopType)
        ensures
            r == LoopType::spec_from_raw(v),
    {
        match v & 0b11 {
            1 => LoopType::Forward,
            2 => LoopType::PingPong,
            3 => LoopType::PingPong,
            _ => LoopType::No,
        }
    }
}

/// Whether the sample was recorded with 8 or 16 bit depth.
#[derive(Clone, Debug, PartialEq)]
pub enum SampleDataType {
    /// Signed 8-bit frames.
    Depth8(Vec<i8>),
    /// Signed 16-bit frames.
    Depth16(Vec<i16>),
}

impl SampleDataType {
    /// Two waves carry the same frames at the same depth.
    pub open spec fn view_eq(self, o: SampleDataType) -> bool {
        match (self, o) {
            (SampleDataType::Depth8(a), SampleDataType::Depth8(b)) => a@ == b@,
            (SampleDataType::Depth16(a), SampleDataType::Depth16(b)) => a@ == b@,
            _ => false,
        }
    }
}

/// A real data sample.
///
/// Quantities are kept in the units of the historical file formats: volumes
/// in 0..=64, panning in 0..=255 with 128 for the center, finetune in
/// -128..=127 for about half a semitone either way.
#[derive(Clone, Debug, PartialEq)]
pub struct Sample {
    /// Name of the sample.
    pub name: String,
    /// Start of the loop region, in frames; kept below the length on load.
    pub loop_start: u32,
    /// Length of the loop region, in frames; `loop_start + loop_length`
    /// never exceeds the length after loading.
    pub loop_length: u32,
    /// Volume, 0..=64.
    pub volume: u8,
    /// Finetune in 1/128 semitone steps, -128..=127.
    pub finetune: i8,
    /// How the loop region is played.
    pub flags: LoopType,
    /// Panning, 0 (left) ..= 255 (right).
    pub panning: u8,
    /// Semitone offset from C-4, -96..=95.
    pub relative_note: i8,
    /// The wave data.
    pub data: SampleDataType,
}

impl Sample {
    /// A loadable sample: the loop region lies inside the data and the
    /// frame count fits the 32-bit length fields of the historical formats
    /// even for 16-bit data.
    pub open spec fn wf(self) -> bool {
        &&& self.loop_start + self.loop_length <= self.spec_len()
        &&& self.spec_len() <= 0x7FFFFFFF
    }

    /// Two samples carry the same data: every field equal, the wave
    /// compared frame by frame.
    pub open spec fn view_eq(self, o: Sample) -> bool {
        &&& self.name@ == o.name@
        &&& self.loop_start == o.loop_start
        &&& self.loop_length == o.loop_length
        &&& self.volume == o.volume
        &&& self.finetune == o.finetune
        &&& self.flags == o.flags
        &&& self.panning == o.panning
        &&& self.relative_note == o.relative_note
        &&& self.data.view_eq(o.data)
    }

    /// The number of frames held, whatever the depth.
    pub open spec fn spec_len(self) -> nat {
        match self.data {
            SampleDataType::Depth8(v) => v@.len(),
            SampleDataType::Depth16(v) => v@.len(),
        }
    }

    /// Return the sample length in frames.
    pub fn len(&self) -> (r: usize)
        ensures
            r == self.spec_len(),
    {
        match &self.data {
            SampleDataType::Depth8(v) => v.len(),
            SampleDataType::Depth16(v) => v.len(),
        }
    }

    /// Return the sample depth: 8 or 16 bits.
    pub fn bits(&self) -> (r: u8)
        ensures
            r == 8 <==> self.data is Depth8,
            r == 16 <==> self.data is Depth16,
    {
        match &self.data {
            SampleDataType::Depth8(_) => 8,
            SampleDataType::Depth16(_) => 16,
        }
    }
}

} // verus!
