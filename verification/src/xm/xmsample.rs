//! The sample record of an XM instrument: a 40-byte header and a
//! delta-coded payload.

use vstd::prelude::*;

use crate::cursor::push_u32_le;
use crate::cursor::spec_u32_le;
use crate::cursor::read_u32_le;
use crate::cursor::spec_u32_le_bytes;
use crate::error::CodecError;
use crate::fixedstr::decoded_field;
use crate::fixedstr::fixed_bytes_to_string;
use crate::fixedstr::spec_fixed_field;
use crate::fixedstr::string_to_fixed_bytes;
use crate::sample::LoopType;
use crate::sample::Sample;
use crate::sample::SampleDataType;

use super::helper::delta16_to_sample;
use super::helper::delta8_to_sample;
use super::helper::sample16_to_delta;
use super::helper::sample8_to_delta;
use super::helper::spec_delta16_decode;
use super::helper::spec_delta16_encode;
use super::helper::spec_delta8_decode;
use super::helper::spec_delta8_encode;
use super::helper::spec_le_bytes;
use super::helper::spec_le_u16s;
use super::helper::u8_slice_to_vec_u16;
use super::helper::vec_u16_to_u8_slice;

verus! {

/// Size of the on-disk sample header in bytes.
pub const XMSAMPLE_HEADER_SIZE: usize = 40;

/// The fixed-size header in front of every sample payload.
#[derive(Clone, Debug, PartialEq)]
pub struct XmSampleHeader {
    /// Payload length in bytes.
    pub length: u32,
    /// Loop start in bytes.
    pub loop_start: u32,
    /// Loop length in bytes.
    pub loop_length: u32,
    /// Volume, 0..=64.
    pub volume: u8,
    /// Finetune, -128..=127.
    pub finetune: i8,
    /// Bits 0..1: loop type; bit 4: 16-bit data.
    pub flags: u8,
    /// Panning, 0..=255.
    pub panning: u8,
    /// Semitone offset from C-4.
    pub relative_note: i8,
    /// Unused on disk.
    pub reserved: u8,
    /// Sample name, 22 bytes on disk.
    pub name: String,
}

impl Default for XmSampleHeader {
    fn default() -> (r: Self)
        ensures
            r.length == 0,
            r.loop_start == 0,
            r.loop_length == 0,
            r.volume == 0,
            r.finetune == 0,
            r.flags == 0,
            r.panning == 0,
            r.relative_note == 0,
            r.reserved == 0,
            r.name@.len() == 0,
    {
        XmSampleHeader {
            length: 0,
            loop_start: 0,
            loop_length: 0,
            volume: 0,
            finetune: 0,
            flags: 0,
            panning: 0,
            relative_note: 0,
            reserved: 0,
            name: String::new(),
        }
    }
}

/// One sample of an XM instrument: its header, and its decoded wave once
/// the payload has been read.
#[derive(Clone, Debug, PartialEq)]
pub struct XmSample {
    /// The on-disk header.
    pub header: XmSampleHeader,
    /// The decoded wave data; `None` until the payload is read.
    pub data: Option<SampleDataType>,
}

impl Default for XmSample {
    fn default() -> (r: Self)
        ensures
            r.header.length == 0,
            r.header.loop_start == 0,
            r.header.loop_length == 0,
            r.header.volume == 0,
            r.header.finetune == 0,
            r.header.flags == 0,
            r.header.panning == 0,
            r.header.relative_note == 0,
            r.header.name@.len() == 0,
            r.data is None,
    {
        XmSample { header: XmSampleHeader::default(), data: Option::None }
    }
}

impl XmSample {
    /// Whether the header flags declare 16-bit data.
    pub open spec fn spec_is_16bit(self) -> bool {
        self.header.flags & 0b0001_0000 != 0
    }

    /// Read one 40-byte sample header at `pos`; the payload comes later,
    /// after all sample headers of the instrument.
    pub fn load(data: &[u8], pos: usize) -> (r: Result<(XmSample, usize), CodecError>)
        ensures
            r matches Ok((s, p)) ==> {
                &&& pos + 40 <= data@.len()
                &&& p == pos + 40
                &&& s.header.length as int == spec_u32_le(data@, pos as int)
                &&& s.header.loop_start as int == spec_u32_le(data@, pos + 4)
                &&& s.header.loop_length as int == spec_u32_le(data@, pos + 8)
                &&& s.header.volume == data@[pos + 12]
                &&& s.header.finetune == data@[pos + 13] as i8
                &&& s.header.flags == data@[pos + 14]
                &&& s.header.panning == data@[pos + 15]
                &&& s.header.relative_note == data@[pos + 16] as i8
                &&& s.header.name@ == decoded_field(data@.subrange(pos + 18, pos + 40))
                &&& s.data is None
            },
            r is Err <==> pos + 40 > data@.len(),
    {
        if pos > data.len() || data.len() - pos < 40 {
            return Err(CodecError::Truncated);
        }
        let header = XmSampleHeader {
            length: read_u32_le(data, pos),
            loop_start: read_u32_le(data, pos + 4),
            loop_length: read_u32_le(data, pos + 8),
            volume: data[pos + 12],
            finetune: data[pos + 13] as i8,
            flags: data[pos + 14],
            panning: data[pos + 15],
            relative_note: data[pos + 16] as i8,
            reserved: data[pos + 17],
            name: fixed_bytes_to_string(&data[pos + 18..pos + 40]),
        };
        Ok((XmSample { header, data: Option::None }, pos + 40))
    }

    /// Read this sample's delta-coded payload at `pos` and decode it; the
    /// header's byte length says how much to consume.
    pub fn add_sample(&mut self, data: &[u8], pos: usize) -> (r: Result<usize, CodecError>)
        ensures
            final (self).header == old(self).header,
            r matches Ok(p) ==> {
                &&& p == pos + old(self).header.length as int
                &&& p <= data@.len()
                &&& final (self).data matches Some(d) && (if old(self).spec_is_16bit() {
                    d matches SampleDataType::Depth16(v) && v@ == spec_delta16_decode(
                        spec_le_u16s(data@.subrange(pos as int, pos + old(self).header.length)),
                    )
                } else {
                    d matches SampleDataType::Depth8(v) && v@ == spec_delta8_decode(
                        data@.subrange(pos as int, pos + old(self).header.length),
                    )
                })
            },
            r is Err <==> pos + old(self).header.length > data@.len(),
    {
        let data_len = self.header.length as usize;
        if pos > data.len() || data.len() - pos < data_len {
            return Err(CodecError::Truncated);
        }
        let slice: &[u8] = &data[pos..pos + data_len];
        if self.header.flags & 0b0001_0000 != 0 {
            let words = u8_slice_to_vec_u16(slice);
            let sample2 = delta16_to_sample(words);
            self.data = Some(SampleDataType::Depth16(sample2));
        } else {
            let sample2 = delta8_to_sample(vstd::slice::slice_to_vec(slice));
            self.data = Some(SampleDataType::Depth8(sample2));
        }
        Ok(pos + data_len)
    }

    /// Write this sample's header, first setting its byte length (and the
    /// 16-bit flag) from the wave actually held.
    pub fn save(&mut self) -> (r: Result<Vec<u8>, CodecError>)
        requires
            (match old(self).data {
                Some(SampleDataType::Depth8(d)) => d@.len() as int,
                Some(SampleDataType::Depth16(d)) => 2 * d@.len() as int,
                Option::None => 0,
            }) <= 0xFFFF_FFFF,
        ensures
            final (self).data == old(self).data,
            final (self).header.length as int == (match old(self).data {
                Some(SampleDataType::Depth8(d)) => d@.len() as int,
                Some(SampleDataType::Depth16(d)) => 2 * d@.len() as int,
                Option::None => 0,
            }),
            final (self).header.flags == (if old(self).data matches Some(SampleDataType::Depth16(_)) {
                old(self).header.flags | 0b0001_0000
            } else {
                old(self).header.flags
            }),
            final (self).header.loop_start == old(self).header.loop_start,
            final (self).header.loop_length == old(self).header.loop_length,
            final (self).header.volume == old(self).header.volume,
            final (self).header.finetune == old(self).header.finetune,
            final (self).header.panning == old(self).header.panning,
            final (self).header.relative_note == old(self).header.relative_note,
            final (self).header.name == old(self).header.name,
            r matches Ok(out) ==> out@ == spec_sample_header_save(final (self).header),
            r is Ok,
    {
        match &self.data {
            Some(SampleDataType::Depth8(d)) => {
                self.header.length = d.len() as u32;
            },
            Some(SampleDataType::Depth16(d)) => {
                self.header.flags = self.header.flags | 0b0001_0000;
                self.header.length = (2 * d.len()) as u32;
            },
            Option::None => {
                self.header.length = 0;
            },
        }
        let mut out: Vec<u8> = Vec::new();
        push_u32_le(&mut out, self.header.length);
        push_u32_le(&mut out, self.header.loop_start);
        push_u32_le(&mut out, self.header.loop_length);
        out.push(self.header.volume);
        out.push(self.header.finetune as u8);
        out.push(self.header.flags);
        out.push(self.header.panning);
        out.push(self.header.relative_note as u8);
        out.push(self.header.reserved);
        let mut name = string_to_fixed_bytes(self.header.name.as_str(), 22);
        out.append(&mut name);
        proof {
            assert(out@ =~= spec_sample_header_save(self.header));
        }
        Ok(out)
    }

    /// Write this sample's payload: the wave delta-coded, 16-bit words as
    /// little-endian byte pairs. Call `save` first so the header length
    /// matches.
    pub fn save_sample(&mut self) -> (r: Result<Vec<u8>, CodecError>)
        ensures
            *final (self) == *old(self),
            r matches Ok(out) ==> out@ == (match old(self).data {
                Some(SampleDataType::Depth8(d)) => spec_delta8_encode(d@),
                Some(SampleDataType::Depth16(d)) => spec_le_bytes(spec_delta16_encode(d@)),
                Option::None => Seq::<u8>::empty(),
            }),
            r is Ok,
    {
        let out = match &self.data {
            Some(SampleDataType::Depth8(d)) => sample8_to_delta(d),
            Some(SampleDataType::Depth16(d)) => {
                let w = sample16_to_delta(d);
                vec_u16_to_u8_slice(w)
            },
            Option::None => Vec::new(),
        };
        Ok(out)
    }

    /// The number of frames this sample holds.
    pub fn len(&self) -> (r: u32)
        requires
            (match self.data {
                Some(SampleDataType::Depth8(d)) => d@.len() as int,
                Some(SampleDataType::Depth16(d)) => d@.len() as int,
                Option::None => 0,
            }) <= 0xFFFF_FFFF,
        ensures
            r as int == (match self.data {
                Some(SampleDataType::Depth8(d)) => d@.len() as int,
                Some(SampleDataType::Depth16(d)) => d@.len() as int,
                Option::None => 0,
            }),
    {
        match &self.data {
            Some(SampleDataType::Depth8(d)) => d.len() as u32,
            Some(SampleDataType::Depth16(d)) => d.len() as u32,
            Option::None => 0,
        }
    }

    /// The frame count this record holds, 0 when no payload was read.
    pub open spec fn spec_frames(self) -> int {
        match self.data {
            Some(SampleDataType::Depth8(d)) => d@.len() as int,
            Some(SampleDataType::Depth16(d)) => d@.len() as int,
            Option::None => 0,
        }
    }

    /// How this record converts to a unified sample: fields carried over,
    /// byte-counted loop fields halved for 16-bit data, and an invalid
    /// loop region clamped into the data.
    pub open spec fn converts_to(self, r: Sample) -> bool {
        &&& r.wf()
        &&& r.name@ == self.header.name@
        &&& r.volume == self.header.volume
        &&& r.finetune == self.header.finetune
        &&& r.panning == self.header.panning
        &&& r.relative_note == self.header.relative_note
        &&& r.flags == LoopType::spec_from_raw(self.header.flags)
        &&& (match self.data {
            Some(d) => d.view_eq(r.data),
            Option::None => r.data matches SampleDataType::Depth8(v) && v@.len() == 0,
        })
        &&& ({
            let halved = self.data matches Some(SampleDataType::Depth16(_));
            let ls0 = if halved {
                self.header.loop_start as int / 2
            } else {
                self.header.loop_start as int
            };
            let ll0 = if halved {
                self.header.loop_length as int / 2
            } else {
                self.header.loop_length as int
            };
            let n = r.spec_len() as int;
            if n == 0 {
                r.loop_start == 0 && r.loop_length == 0
            } else {
                let ls1 = if ls0 >= n {
                    n - 1
                } else {
                    ls0
                };
                let ll1 = if ll0 > n - ls1 {
                    n - ls1
                } else {
                    ll0
                };
                r.loop_start == ls1 && r.loop_length == ll1
            }
        })
    }

    /// Convert to the unified sample: byte-counted loop fields become
    /// frame counts for 16-bit data, and invalid loop regions are clamped
    /// into the data, never rejected.
    pub fn to_sample(&self) -> (r: Sample)
        requires
            self.spec_frames() <= 0x7FFF_FFFF,
        ensures
            self.converts_to(r),
    {
        let mut loop_start = self.header.loop_start;
        let mut loop_length = self.header.loop_length;
        let is16 = match &self.data {
            Some(SampleDataType::Depth16(_)) => true,
            _ => false,
        };
        if is16 {
            loop_start = loop_start / 2;
            loop_length = loop_length / 2;
        }
        let data: SampleDataType = match &self.data {
            Some(SampleDataType::Depth8(d)) => {
                let w = d.clone();
                assert(w@ =~= d@);
                SampleDataType::Depth8(w)
            },
            Some(SampleDataType::Depth16(d)) => {
                let w = d.clone();
                assert(w@ =~= d@);
                SampleDataType::Depth16(w)
            },
            Option::None => SampleDataType::Depth8(Vec::new()),
        };
        let sample_length: u32 = match &data {
            SampleDataType::Depth8(d) => d.len() as u32,
            SampleDataType::Depth16(d) => d.len() as u32,
        };
        if sample_length == 0 {
            loop_start = 0;
            loop_length = 0;
        } else {
            if loop_start >= sample_length {
                loop_start = sample_length - 1;
            }
            if loop_length > sample_length - loop_start {
                loop_length = sample_length - loop_start;
            }
        }
        Sample {
            name: crate::fixedstr::clone_string(&self.header.name),
            loop_start,
            loop_length,
            volume: self.header.volume,
            finetune: self.header.finetune,
            flags: LoopType::from_raw(self.header.flags),
            panning: self.header.panning,
            relative_note: self.header.relative_note,
            data,
        }
    }
}

impl XmSample {
    /// Build the sample records of an instrument's samples: frame-counted
    /// loop fields become byte counts for 16-bit data.
    pub fn from_instr(i: &crate::instrument::Instrument) -> (r: Vec<XmSample>)
        requires
            i.instr_type matches crate::instrument::InstrumentType::Classic(id) ==> forall|k: int|
                0 <= k < id.sample@.len() ==> (#[trigger] id.sample@[k]).wf(),
        ensures
            (match i.instr_type {
                crate::instrument::InstrumentType::Classic(id) => {
                    &&& r@.len() == id.sample@.len()
                    &&& forall|k: int|
                        0 <= k < r@.len() ==> {
                            let s = #[trigger] id.sample@[k];
                            let halved = s.data is Depth16;
                            &&& r@[k].header.length as int == (if halved {
                                2 * (s.spec_len() as int)
                            } else {
                                s.spec_len() as int
                            })
                            &&& r@[k].header.loop_start as int == (if halved {
                                2 * s.loop_start
                            } else {
                                s.loop_start as int
                            })
                            &&& r@[k].header.loop_length as int == (if halved {
                                2 * s.loop_length
                            } else {
                                s.loop_length as int
                            })
                            &&& r@[k].header.volume == s.volume
                            &&& r@[k].header.finetune == s.finetune
                            &&& r@[k].header.flags == s.flags.spec_raw()
                            &&& r@[k].header.panning == s.panning
                            &&& r@[k].header.relative_note == s.relative_note
                            &&& r@[k].header.name@ == s.name@
                            &&& r@[k].data matches Some(d) && d.view_eq(s.data)
                        }
                },
                _ => r@.len() == 0,
            }),
    {
        let mut output: Vec<XmSample> = Vec::new();
        if let crate::instrument::InstrumentType::Classic(id) = &i.instr_type {
            let n = id.sample.len();
            let mut k: usize = 0;
            while k < n
                invariant
                    n == id.sample@.len(),
                    k <= n,
                    forall|j: int| 0 <= j < n ==> (#[trigger] id.sample@[j]).wf(),
                    output@.len() == k,
                    forall|j: int|
                        0 <= j < k ==> {
                            let s = #[trigger] id.sample@[j];
                            let halved = s.data is Depth16;
                            &&& output@[j].header.length as int == (if halved {
                                2 * (s.spec_len() as int)
                            } else {
                                s.spec_len() as int
                            })
                            &&& output@[j].header.loop_start as int == (if halved {
                                2 * s.loop_start
                            } else {
                                s.loop_start as int
                            })
                            &&& output@[j].header.loop_length as int == (if halved {
                                2 * s.loop_length
                            } else {
                                s.loop_length as int
                            })
                            &&& output@[j].header.volume == s.volume
                            &&& output@[j].header.finetune == s.finetune
                            &&& output@[j].header.flags == s.flags.spec_raw()
                            &&& output@[j].header.panning == s.panning
                            &&& output@[j].header.relative_note == s.relative_note
                            &&& output@[j].header.name@ == s.name@
                            &&& output@[j].data matches Some(d) && d.view_eq(s.data)
                        },
                decreases n - k,
            {
                let s: &Sample = &id.sample[k];
                let is16 = match &s.data {
                    SampleDataType::Depth16(_) => true,
                    _ => false,
                };
                let frames = s.len();
                let (length, loop_start, loop_length) = if is16 {
                    (
                        2 * (frames as u32),
                        2 * s.loop_start,
                        2 * s.loop_length,
                    )
                } else {
                    ((frames as u32), s.loop_start, s.loop_length)
                };
                let data: SampleDataType = match &s.data {
                    SampleDataType::Depth8(d) => {
                        let w = d.clone();
                        assert(w@ =~= d@);
                        SampleDataType::Depth8(w)
                    },
                    SampleDataType::Depth16(d) => {
                        let w = d.clone();
                        assert(w@ =~= d@);
                        SampleDataType::Depth16(w)
                    },
                };
                let xms = XmSample {
                    header: XmSampleHeader {
                        length,
                        loop_start,
                        loop_length,
                        volume: s.volume,
                        finetune: s.finetune,
                        flags: s.flags.raw(),
                        panning: s.panning,
                        relative_note: s.relative_note,
                        reserved: 0,
                        name: crate::fixedstr::clone_string(&s.name),
                    },
                    data: Some(data),
                };
                output.push(xms);
                k = k + 1;
            }
        }
        output
    }
}

/// A written sample header reads back field for field wherever it stands
/// in a buffer: lengths and loop fields as written, and the name exactly,
/// provided it fits its 22-byte field and carries no padding of its own.
pub proof fn lemma_sample_header_roundtrip(h: XmSampleHeader, b: Seq<u8>, pos: int)
    requires
        0 <= pos,
        pos + 40 <= b.len(),
        b.subrange(pos, pos + 40) == spec_sample_header_save(h),
        vstd::utf8::encode_utf8(h.name@).len() <= 22,
        h.name@.len() > 0 ==> !crate::fixedstr::is_trim_byte(vstd::utf8::encode_utf8(h.name@)[0])
            && !crate::fixedstr::is_trim_byte(vstd::utf8::encode_utf8(h.name@).last()),
    ensures
        spec_u32_le(b, pos) == h.length as int,
        spec_u32_le(b, pos + 4) == h.loop_start as int,
        spec_u32_le(b, pos + 8) == h.loop_length as int,
        b[pos + 12] == h.volume,
        b[pos + 13] as i8 == h.finetune,
        b[pos + 14] == h.flags,
        b[pos + 15] == h.panning,
        b[pos + 16] as i8 == h.relative_note,
        decoded_field(b.subrange(pos + 18, pos + 40)) == h.name@,
{
    let sv = spec_sample_header_save(h);
    assert(b.subrange(pos, pos + 4) =~= crate::cursor::spec_u32_le_bytes(h.length)) by {
        assert forall|k: int| 0 <= k < 4 implies b.subrange(pos, pos + 4)[k]
            == crate::cursor::spec_u32_le_bytes(h.length)[k] by {
            assert(b.subrange(pos, pos + 40)[k] == sv[k]);
        }
    }
    crate::cursor::lemma_u32_le_roundtrip(h.length, b, pos);
    assert(b.subrange(pos + 4, pos + 8) =~= crate::cursor::spec_u32_le_bytes(h.loop_start)) by {
        assert forall|k: int| 0 <= k < 4 implies b.subrange(pos + 4, pos + 8)[k]
            == crate::cursor::spec_u32_le_bytes(h.loop_start)[k] by {
            assert(b.subrange(pos, pos + 40)[4 + k] == sv[4 + k]);
        }
    }
    crate::cursor::lemma_u32_le_roundtrip(h.loop_start, b, pos + 4);
    assert(b.subrange(pos + 8, pos + 12) =~= crate::cursor::spec_u32_le_bytes(h.loop_length)) by {
        assert forall|k: int| 0 <= k < 4 implies b.subrange(pos + 8, pos + 12)[k]
            == crate::cursor::spec_u32_le_bytes(h.loop_length)[k] by {
            assert(b.subrange(pos, pos + 40)[8 + k] == sv[8 + k]);
        }
    }
    crate::cursor::lemma_u32_le_roundtrip(h.loop_length, b, pos + 8);
    assert(b[pos + 12] == sv[12]);
    assert(b[pos + 13] == sv[13]);
    assert(b[pos + 14] == sv[14]);
    assert(b[pos + 15] == sv[15]);
    assert(b[pos + 16] == sv[16]);
    let ft = h.finetune;
    assert(ft as u8 as i8 == ft) by (bit_vector);
    let rn = h.relative_note;
    assert(rn as u8 as i8 == rn) by (bit_vector);
    let bytes = vstd::utf8::encode_utf8(h.name@);
    let field = crate::fixedstr::spec_fixed_field(h.name@, 22);
    assert(crate::fixedstr::spec_fit_len(bytes, 22) == bytes.len());
    assert(bytes.take(bytes.len() as int) =~= bytes);
    assert(field =~= bytes + crate::fixedstr::zero_bytes(22 - bytes.len()));
    assert(b.subrange(pos + 18, pos + 40) =~= field) by {
        assert forall|k: int| 0 <= k < 22 implies b.subrange(pos + 18, pos + 40)[k] == field[k] by {
            assert(b.subrange(pos, pos + 40)[18 + k] == sv[18 + k]);
        }
    }
    crate::fixedstr::lemma_fixed_field_roundtrip(h.name@, 22);
}

/// The 40 bytes a sample header writes.
pub open spec fn spec_sample_header_save(h: XmSampleHeader) -> Seq<u8> {
    spec_u32_le_bytes(h.length) + spec_u32_le_bytes(h.loop_start) + spec_u32_le_bytes(h.loop_length)
        + seq![h.volume, h.finetune as u8, h.flags, h.panning, h.relative_note as u8, h.reserved]
        + spec_fixed_field(h.name@, 22)
}

} // verus!
