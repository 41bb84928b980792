//! The instrument record of an XM file: a short header, the fixed default
//! instrument block, then all sample headers followed by all sample
//! payloads.

use vstd::prelude::*;

use crate::cursor::push_u16_le;
use crate::cursor::push_u32_le;
use crate::cursor::read_u16_le;
use crate::cursor::read_u32_le;
use crate::cursor::spec_u16_le;
use crate::cursor::spec_u16_le_bytes;
use crate::cursor::spec_u32_le;
use crate::cursor::spec_u32_le_bytes;
use crate::envelope::Envelope;
use crate::envelope::EnvelopePoint;
use crate::error::CodecError;
use crate::fixedstr::decoded_field;
use crate::fixedstr::fixed_bytes_to_string;
use crate::fixedstr::spec_fixed_field;
use crate::fixedstr::string_to_fixed_bytes;
use crate::instr_default::InstrDefault;
use crate::instr_midi::InstrMidi;
use crate::instr_vibrato::InstrVibrato;
use crate::instr_vibrato::Waveform;
use crate::instrument::Instrument;
use crate::instrument::InstrumentType;
use crate::module::Module;
use crate::sample::Sample;

use crate::fixedstr::clone_string;
use super::xmsample::XmSample;
use super::xmsample::XMSAMPLE_HEADER_SIZE;

verus! {

/// Size of the on-disk instrument header in bytes.
pub const XMINSTRUMENT_SIZE: usize = 29;

/// Size of the on-disk default instrument block in bytes.
pub const XMINSTRDEFAULT_SIZE: usize = 215;

/// The on-disk payload of an instrument: nothing, or the classic default
/// instrument block.
#[derive(Clone, Debug, PartialEq)]
pub enum XmInstrumentType {
    /// An instrument with no samples carries no block.
    Empty,
    /// The classic multi-sample instrument block.
    Classic(XmInstrDefault),
}

impl XmInstrumentType {
    /// Write the instrument block: the 215 block bytes for a classic
    /// instrument, nothing for an empty one.
    pub fn save(&self) -> (r: Result<Vec<u8>, CodecError>)
        requires
            *self matches XmInstrumentType::Classic(xd) ==> xd.wf(),
        ensures
            r matches Ok(out) ==> out@ == (match *self {
                XmInstrumentType::Classic(xd) => spec_instr_default_save(xd),
                XmInstrumentType::Empty => Seq::<u8>::empty(),
            }),
            r is Ok,
    {
        match self {
            XmInstrumentType::Classic(xd) => Ok(xd.save()),
            XmInstrumentType::Empty => Ok(Vec::new()),
        }
    }
}

/// The fixed 215-byte default instrument block, kept in its raw on-disk
/// fields.
#[derive(Clone, Debug, PartialEq)]
pub struct XmInstrDefault {
    /// 96 bytes mapping each pitch to a sample index.
    pub sample_for_notes: Vec<u8>,
    /// 48 bytes holding up to 12 volume envelope points.
    pub volume_envelope: Vec<u8>,
    /// 48 bytes holding up to 12 panning envelope points.
    pub panning_envelope: Vec<u8>,
    /// Declared number of volume points.
    pub number_of_volume_points: u8,
    /// Declared number of panning points.
    pub number_of_panning_points: u8,
    /// Volume envelope sustain index.
    pub volume_sustain_point: u8,
    /// Volume envelope loop start index.
    pub volume_loop_start_point: u8,
    /// Volume envelope loop end index.
    pub volume_loop_end_point: u8,
    /// Panning envelope sustain index.
    pub panning_sustain_point: u8,
    /// Panning envelope loop start index.
    pub panning_loop_start_point: u8,
    /// Panning envelope loop end index.
    pub panning_loop_end_point: u8,
    /// Bit 0: on, bit 1: sustain, bit 2: loop.
    pub volume_flag: u8,
    /// Bit 0: on, bit 1: sustain, bit 2: loop.
    pub panning_flag: u8,
    /// Vibrato waveform byte.
    pub vibrato_type: u8,
    /// Vibrato sweep.
    pub vibrato_sweep: u8,
    /// Vibrato depth.
    pub vibrato_depth: u8,
    /// Vibrato rate.
    pub vibrato_rate: u8,
    /// Volume fadeout rate.
    pub volume_fadeout: u16,
    /// MIDI on.
    pub midi_on: u8,
    /// MIDI channel.
    pub midi_channel: u8,
    /// MIDI program.
    pub midi_program: u16,
    /// MIDI pitch bend range.
    pub midi_bend: u16,
    /// Mute the computer side when MIDI is on.
    pub midi_mute_computer: u8,
}

impl XmInstrDefault {
    /// A block holds exactly its three fixed-width tables.
    pub open spec fn wf(self) -> bool {
        &&& self.sample_for_notes@.len() == 96
        &&& self.volume_envelope@.len() == 48
        &&& self.panning_envelope@.len() == 48
    }

    /// Parse the 215-byte block at `pos`.
    pub fn load(data: &[u8], pos: usize) -> (r: Result<XmInstrDefault, CodecError>)
        ensures
            r matches Ok(xd) ==> {
                &&& pos + 215 <= data@.len()
                &&& xd.wf()
                &&& xd.sample_for_notes@ == data@.subrange(pos as int, pos + 96)
                &&& xd.volume_envelope@ == data@.subrange(pos + 96, pos + 144)
                &&& xd.panning_envelope@ == data@.subrange(pos + 144, pos + 192)
                &&& xd.number_of_volume_points == data@[pos + 192]
                &&& xd.number_of_panning_points == data@[pos + 193]
                &&& xd.volume_sustain_point == data@[pos + 194]
                &&& xd.volume_loop_start_point == data@[pos + 195]
                &&& xd.volume_loop_end_point == data@[pos + 196]
                &&& xd.panning_sustain_point == data@[pos + 197]
                &&& xd.panning_loop_start_point == data@[pos + 198]
                &&& xd.panning_loop_end_point == data@[pos + 199]
                &&& xd.volume_flag == data@[pos + 200]
                &&& xd.panning_flag == data@[pos + 201]
                &&& xd.vibrato_type == data@[pos + 202]
                &&& xd.vibrato_sweep == data@[pos + 203]
                &&& xd.vibrato_depth == data@[pos + 204]
                &&& xd.vibrato_rate == data@[pos + 205]
                &&& xd.volume_fadeout as int == spec_u16_le(data@, pos + 206)
                &&& xd.midi_on == data@[pos + 208]
                &&& xd.midi_channel == data@[pos + 209]
                &&& xd.midi_program as int == spec_u16_le(data@, pos + 210)
                &&& xd.midi_bend as int == spec_u16_le(data@, pos + 212)
                &&& xd.midi_mute_computer == data@[pos + 214]
            },
            r is Err <==> pos + 215 > data@.len(),
    {
        if pos > data.len() || data.len() - pos < 215 {
            return Err(CodecError::Truncated);
        }
        let sample_for_notes = vstd::slice::slice_to_vec(&data[pos..pos + 96]);
        let volume_envelope = vstd::slice::slice_to_vec(&data[pos + 96..pos + 144]);
        let panning_envelope = vstd::slice::slice_to_vec(&data[pos + 144..pos + 192]);
        Ok(
            XmInstrDefault {
                sample_for_notes,
                volume_envelope,
                panning_envelope,
                number_of_volume_points: data[pos + 192],
                number_of_panning_points: data[pos + 193],
                volume_sustain_point: data[pos + 194],
                volume_loop_start_point: data[pos + 195],
                volume_loop_end_point: data[pos + 196],
                panning_sustain_point: data[pos + 197],
                panning_loop_start_point: data[pos + 198],
                panning_loop_end_point: data[pos + 199],
                volume_flag: data[pos + 200],
                panning_flag: data[pos + 201],
                vibrato_type: data[pos + 202],
                vibrato_sweep: data[pos + 203],
                vibrato_depth: data[pos + 204],
                vibrato_rate: data[pos + 205],
                volume_fadeout: read_u16_le(data, pos + 206),
                midi_on: data[pos + 208],
                midi_channel: data[pos + 209],
                midi_program: read_u16_le(data, pos + 210),
                midi_bend: read_u16_le(data, pos + 212),
                midi_mute_computer: data[pos + 214],
            },
        )
    }

    /// Write the 215 block bytes.
    pub fn save(&self) -> (r: Vec<u8>)
        requires
            self.wf(),
        ensures
            r@ == spec_instr_default_save(*self),
    {
        let mut out: Vec<u8> = Vec::new();
        let mut a = vstd::slice::slice_to_vec(self.sample_for_notes.as_slice());
        out.append(&mut a);
        let mut b = vstd::slice::slice_to_vec(self.volume_envelope.as_slice());
        out.append(&mut b);
        let mut c = vstd::slice::slice_to_vec(self.panning_envelope.as_slice());
        out.append(&mut c);
        out.push(self.number_of_volume_points);
        out.push(self.number_of_panning_points);
        out.push(self.volume_sustain_point);
        out.push(self.volume_loop_start_point);
        out.push(self.volume_loop_end_point);
        out.push(self.panning_sustain_point);
        out.push(self.panning_loop_start_point);
        out.push(self.panning_loop_end_point);
        out.push(self.volume_flag);
        out.push(self.panning_flag);
        out.push(self.vibrato_type);
        out.push(self.vibrato_sweep);
        out.push(self.vibrato_depth);
        out.push(self.vibrato_rate);
        push_u16_le(&mut out, self.volume_fadeout);
        out.push(self.midi_on);
        out.push(self.midi_channel);
        push_u16_le(&mut out, self.midi_program);
        push_u16_le(&mut out, self.midi_bend);
        out.push(self.midi_mute_computer);
        proof {
            assert(out@ =~= spec_instr_default_save(*self));
        }
        out
    }

    /// The 48-byte envelope table of an envelope's points: frame and value
    /// pairs little-endian, unused entries zero.
    pub fn from_envelope(e: &Envelope) -> (r: Vec<u8>)
        requires
            e.point@.len() <= 12,
        ensures
            r@.len() == 48,
            forall|i: int|
                0 <= i < e.point@.len() ==> spec_u16_le(r@, 4 * i) == (#[trigger] e.point@[i]).frame
                    as int && spec_u16_le(r@, 4 * i + 2) == e.point@[i].value as int,
    {
        let mut dst: Vec<u8> = Vec::new();
        let n = e.point.len();
        let mut i: usize = 0;
        while i < n
            invariant
                n == e.point@.len() <= 12,
                i <= n,
                dst@.len() == 4 * i,
                forall|k: int|
                    0 <= k < i ==> spec_u16_le(dst@, 4 * k) == (#[trigger] e.point@[k]).frame as int
                        && spec_u16_le(dst@, 4 * k + 2) == e.point@[k].value as int,
            decreases n - i,
        {
            let ep = e.point[i];
            push_u16_le(&mut dst, ep.frame);
            push_u16_le(&mut dst, ep.value);
            i = i + 1;
        }
        while dst.len() < 48
            invariant
                dst@.len() >= 4 * e.point@.len(),
                dst@.len() <= 48,
                forall|k: int|
                    0 <= k < e.point@.len() ==> spec_u16_le(dst@, 4 * k) == (#[trigger] e
                        .point@[k]).frame as int && spec_u16_le(dst@, 4 * k + 2) == e.point@[k]
                        .value as int,
            decreases 48 - dst@.len(),
        {
            dst.push(0);
        }
        dst
    }

    /// Build the on-disk block of an instrument: the classic block for a
    /// classic instrument, nothing otherwise.
    pub fn from_instr(i: &Instrument) -> (r: XmInstrumentType)
        requires
            i.instr_type matches InstrumentType::Classic(id) ==> id.wf()
                && id.volume_envelope.point@.len() <= 12 && id.panning_envelope.point@.len() <= 12,
        ensures
            (match i.instr_type {
                InstrumentType::Classic(id) => r matches XmInstrumentType::Classic(xd) && {
                    &&& xd.wf()
                    &&& xd.sample_for_notes@ == id.sample_for_note@
                    &&& xd.number_of_volume_points as int == id.volume_envelope.point@.len()
                    &&& xd.number_of_panning_points as int == id.panning_envelope.point@.len()
                    &&& xd.volume_sustain_point == id.volume_envelope.sustain_point
                    &&& xd.volume_loop_start_point == id.volume_envelope.loop_start_point
                    &&& xd.volume_loop_end_point == id.volume_envelope.loop_end_point
                    &&& xd.panning_sustain_point == id.panning_envelope.sustain_point
                    &&& xd.panning_loop_start_point == id.panning_envelope.loop_start_point
                    &&& xd.panning_loop_end_point == id.panning_envelope.loop_end_point
                    &&& xd.volume_flag == spec_env_flag(id.volume_envelope)
                    &&& xd.panning_flag == spec_env_flag(id.panning_envelope)
                    &&& xd.vibrato_type == id.vibrato.waveform.spec_raw()
                    &&& xd.vibrato_sweep == id.vibrato.sweep
                    &&& xd.vibrato_depth == id.vibrato.depth
                    &&& xd.vibrato_rate == id.vibrato.speed
                    &&& xd.volume_fadeout == id.volume_fadeout
                    &&& xd.midi_on == (if id.midi.on {
                        1u8
                    } else {
                        0u8
                    })
                    &&& xd.midi_channel == id.midi.channel
                    &&& xd.midi_program == id.midi.program
                    &&& xd.midi_bend == id.midi.bend
                    &&& xd.midi_mute_computer == (if id.midi_mute_computer {
                        1u8
                    } else {
                        0u8
                    })
                    &&& forall|k: int|
                        0 <= k < id.volume_envelope.point@.len() ==> spec_u16_le(
                            xd.volume_envelope@,
                            4 * k,
                        ) == (#[trigger] id.volume_envelope.point@[k]).frame as int && spec_u16_le(
                            xd.volume_envelope@,
                            4 * k + 2,
                        ) == id.volume_envelope.point@[k].value as int
                    &&& forall|k: int|
                        0 <= k < id.panning_envelope.point@.len() ==> spec_u16_le(
                            xd.panning_envelope@,
                            4 * k,
                        ) == (#[trigger] id.panning_envelope.point@[k]).frame as int && spec_u16_le(
                            xd.panning_envelope@,
                            4 * k + 2,
                        ) == id.panning_envelope.point@[k].value as int
                },
                _ => r is Empty,
            }),
    {
        match &i.instr_type {
            InstrumentType::Classic(id) => {
                let volume_flag = env_flag(&id.volume_envelope);
                let panning_flag = env_flag(&id.panning_envelope);
                let xd = XmInstrDefault {
                    sample_for_notes: vstd::slice::slice_to_vec(id.sample_for_note.as_slice()),
                    volume_envelope: Self::from_envelope(&id.volume_envelope),
                    panning_envelope: Self::from_envelope(&id.panning_envelope),
                    number_of_volume_points: id.volume_envelope.point.len() as u8,
                    number_of_panning_points: id.panning_envelope.point.len() as u8,
                    volume_sustain_point: id.volume_envelope.sustain_point,
                    volume_loop_start_point: id.volume_envelope.loop_start_point,
                    volume_loop_end_point: id.volume_envelope.loop_end_point,
                    panning_sustain_point: id.panning_envelope.sustain_point,
                    panning_loop_start_point: id.panning_envelope.loop_start_point,
                    panning_loop_end_point: id.panning_envelope.loop_end_point,
                    volume_flag,
                    panning_flag,
                    vibrato_type: id.vibrato.waveform.raw(),
                    vibrato_sweep: id.vibrato.sweep,
                    vibrato_depth: id.vibrato.depth,
                    vibrato_rate: id.vibrato.speed,
                    volume_fadeout: id.volume_fadeout,
                    midi_on: if id.midi.on {
                        1
                    } else {
                        0
                    },
                    midi_channel: id.midi.channel,
                    midi_program: id.midi.program,
                    midi_bend: id.midi.bend,
                    midi_mute_computer: if id.midi_mute_computer {
                        1
                    } else {
                        0
                    },
                };
                XmInstrumentType::Classic(xd)
            },
            _ => XmInstrumentType::Empty,
        }
    }
}

/// The envelope flag byte: bit 0 on, bit 1 sustain, bit 2 loop.
pub open spec fn spec_env_flag(e: Envelope) -> u8 {
    ((if e.enabled {
        1u8
    } else {
        0u8
    }) | (if e.sustain_enabled {
        2u8
    } else {
        0u8
    }) | (if e.loop_enabled {
        4u8
    } else {
        0u8
    }))
}

/// Assemble the envelope flag byte of an envelope.
fn env_flag(e: &Envelope) -> (r: u8)
    ensures
        r == spec_env_flag(*e),
{
    ((if e.enabled {
        1u8
    } else {
        0u8
    }) | (if e.sustain_enabled {
        2u8
    } else {
        0u8
    }) | (if e.loop_enabled {
        4u8
    } else {
        0u8
    }))
}

/// The 215 bytes a default instrument block writes.
pub open spec fn spec_instr_default_save(xd: XmInstrDefault) -> Seq<u8> {
    xd.sample_for_notes@ + xd.volume_envelope@ + xd.panning_envelope@ + seq![
        xd.number_of_volume_points,
        xd.number_of_panning_points,
        xd.volume_sustain_point,
        xd.volume_loop_start_point,
        xd.volume_loop_end_point,
        xd.panning_sustain_point,
        xd.panning_loop_start_point,
        xd.panning_loop_end_point,
        xd.volume_flag,
        xd.panning_flag,
        xd.vibrato_type,
        xd.vibrato_sweep,
        xd.vibrato_depth,
        xd.vibrato_rate,
    ] + spec_u16_le_bytes(xd.volume_fadeout) + seq![xd.midi_on, xd.midi_channel]
        + spec_u16_le_bytes(xd.midi_program) + spec_u16_le_bytes(xd.midi_bend) + seq![
        xd.midi_mute_computer,
    ]
}

/// The short header in front of every instrument record.
#[derive(Clone, Debug, PartialEq)]
pub struct XmInstrumentHeader {
    /// Distance in bytes from the start of this header to the first sample
    /// header.
    pub instrument_header_len: u32,
    /// Instrument name, 22 bytes on disk.
    pub name: String,
    /// Always 0 in conforming files, random in the wild.
    pub instr_type: u8,
    /// Number of samples.
    pub num_samples: u16,
}

impl Default for XmInstrumentHeader {
    fn default() -> (r: Self)
        ensures
            r.instrument_header_len == 29,
            r.name@.len() == 0,
            r.instr_type == 0,
            r.num_samples == 0,
    {
        XmInstrumentHeader {
            instrument_header_len: XMINSTRUMENT_SIZE as u32,
            name: String::new(),
            instr_type: 0,
            num_samples: 0,
        }
    }
}

/// The 29 bytes an instrument header writes.
pub open spec fn spec_instrument_header_save(h: XmInstrumentHeader) -> Seq<u8> {
    spec_u32_le_bytes(h.instrument_header_len) + spec_fixed_field(h.name@, 22) + seq![h.instr_type]
        + spec_u16_le_bytes(h.num_samples)
}

impl XmInstrumentHeader {
    /// Write the 29 header bytes.
    pub fn save(&self) -> (r: Result<Vec<u8>, CodecError>)
        ensures
            r matches Ok(out) ==> out@ == spec_instrument_header_save(*self) && out@.len() == 29,
            r is Ok,
    {
        let mut out: Vec<u8> = Vec::new();
        push_u32_le(&mut out, self.instrument_header_len);
        let mut name = string_to_fixed_bytes(self.name.as_str(), 22);
        out.append(&mut name);
        out.push(self.instr_type);
        push_u16_le(&mut out, self.num_samples);
        proof {
            assert(out@ =~= spec_instrument_header_save(*self));
        }
        Ok(out)
    }

    /// The header of an instrument: its name and how many samples it
    /// carries.
    pub fn from_instr(i: &Instrument) -> (r: XmInstrumentHeader)
        requires
            (match i.instr_type {
                InstrumentType::Classic(id) => id.sample@.len() <= 65535,
                _ => true,
            }),
        ensures
            r.name@ == i.name@,
            r.instrument_header_len == 29,
            r.instr_type == 0,
            r.num_samples as int == (match i.instr_type {
                InstrumentType::Classic(id) => id.sample@.len() as int,
                _ => 0,
            }),
    {
        XmInstrumentHeader {
            instrument_header_len: XMINSTRUMENT_SIZE as u32,
            name: clone_string(&i.name),
            instr_type: 0,
            num_samples: match &i.instr_type {
                InstrumentType::Classic(it) => it.sample.len() as u16,
                _ => 0,
            },
        }
    }

    /// Parse the 29-byte instrument header at `pos`.
    pub fn load(data: &[u8], pos: usize) -> (r: Result<XmInstrumentHeader, CodecError>)
        ensures
            r matches Ok(h) ==> {
                &&& pos + 29 <= data@.len()
                &&& h.instrument_header_len as int == spec_u32_le(data@, pos as int)
                &&& h.name@ == decoded_field(data@.subrange(pos + 4, pos + 26))
                &&& h.instr_type == data@[pos + 26]
                &&& h.num_samples as int == spec_u16_le(data@, pos + 27)
            },
            r is Err <==> pos + 29 > data@.len(),
    {
        if pos > data.len() || data.len() - pos < 29 {
            return Err(CodecError::Truncated);
        }
        Ok(
            XmInstrumentHeader {
                instrument_header_len: read_u32_le(data, pos),
                name: fixed_bytes_to_string(&data[pos + 4..pos + 26]),
                instr_type: data[pos + 26],
                num_samples: read_u16_le(data, pos + 27),
            },
        )
    }
}

/// One full instrument record: header, optional block, and its samples.
#[derive(Clone, Debug, PartialEq)]
pub struct XmInstrument {
    /// The record header.
    pub header: XmInstrumentHeader,
    /// Declared size of each sample header, 40 in conforming files.
    pub sample_header_size: u32,
    /// The default instrument block, when samples are present.
    pub instr: XmInstrumentType,
    /// The instrument's samples.
    pub sample: Vec<XmSample>,
}

impl Default for XmInstrument {
    fn default() -> (r: Self)
        ensures
            r.header.num_samples == 0,
            r.instr is Empty,
            r.sample@.len() == 0,
    {
        XmInstrument {
            header: XmInstrumentHeader::default(),
            sample_header_size: XMSAMPLE_HEADER_SIZE as u32,
            instr: XmInstrumentType::Empty,
            sample: Vec::new(),
        }
    }
}

/// The block bytes of an instrument payload: 215 bytes for a classic
/// instrument, nothing for an empty one.
pub open spec fn spec_instr_block_save(t: XmInstrumentType) -> Seq<u8> {
    match t {
        XmInstrumentType::Classic(xd) => spec_instr_default_save(xd),
        XmInstrumentType::Empty => Seq::<u8>::empty(),
    }
}

/// The 40-byte sample headers of a record, written in order.
pub open spec fn spec_sample_headers_save(s: Seq<XmSample>) -> Seq<u8>
    decreases s.len(),
{
    if s.len() == 0 {
        Seq::<u8>::empty()
    } else {
        spec_sample_headers_save(s.drop_last()) + super::xmsample::spec_sample_header_save(
            s.last().header,
        )
    }
}

/// The delta-coded payloads of a record, written in order.
pub open spec fn spec_sample_payloads_save(s: Seq<XmSample>) -> Seq<u8>
    decreases s.len(),
{
    if s.len() == 0 {
        Seq::<u8>::empty()
    } else {
        spec_sample_payloads_save(s.drop_last()) + (match s.last().data {
            Some(crate::sample::SampleDataType::Depth8(d)) => super::helper::spec_delta8_encode(
                d@,
            ),
            Some(crate::sample::SampleDataType::Depth16(d)) => super::helper::spec_le_bytes(
                super::helper::spec_delta16_encode(d@),
            ),
            Option::None => Seq::<u8>::empty(),
        })
    }
}

/// The bytes one instrument record writes: its header, the sample header
/// size word, the block, all sample headers, then all payloads.
pub open spec fn spec_instrument_record_save(xi: XmInstrument) -> Seq<u8> {
    spec_instrument_header_save(xi.header) + spec_u32_le_bytes(40) + spec_instr_block_save(xi.instr)
        + spec_sample_headers_save(xi.sample@) + spec_sample_payloads_save(xi.sample@)
}

/// The bytes a sample's wave occupies on disk.
pub open spec fn spec_payload_len(d: Option<crate::sample::SampleDataType>) -> int {
    match d {
        Some(crate::sample::SampleDataType::Depth8(v)) => v@.len() as int,
        Some(crate::sample::SampleDataType::Depth16(v)) => 2 * v@.len() as int,
        Option::None => 0,
    }
}

/// The bytes all of a record's waves occupy on disk, summed.
pub open spec fn spec_payloads_total(s: Seq<XmSample>) -> int
    decreases s.len(),
{
    if s.len() == 0 {
        0
    } else {
        spec_payloads_total(s.drop_last()) + spec_payload_len(s.last().data)
    }
}

/// Sample headers are 40 bytes each, in order.
proof fn lemma_sample_headers_len(s: Seq<XmSample>)
    ensures
        spec_sample_headers_save(s).len() == 40 * s.len(),
    decreases s.len(),
{
    if s.len() > 0 {
        lemma_sample_headers_len(s.drop_last());
        crate::fixedstr::lemma_fixed_field_len(s.last().header.name@, 22);
        assert(super::xmsample::spec_sample_header_save(s.last().header).len() == 40);
    }
}

/// The `k`-th written sample header stands 40 bytes per index into the
/// header area.
proof fn lemma_sample_headers_index(s: Seq<XmSample>, k: int)
    requires
        0 <= k < s.len(),
    ensures
        spec_sample_headers_save(s).subrange(40 * k, 40 * k + 40)
            == super::xmsample::spec_sample_header_save(s[k].header),
    decreases s.len(),
{
    lemma_sample_headers_len(s);
    lemma_sample_headers_len(s.drop_last());
    assert(crate::fixedstr::spec_fixed_field(s.last().header.name@, 22).len() == 22);
    assert(super::xmsample::spec_sample_header_save(s.last().header).len() == 40);
    if k == s.len() - 1 {
        assert(spec_sample_headers_save(s).subrange(40 * k, 40 * k + 40)
            =~= super::xmsample::spec_sample_header_save(s[k].header));
    } else {
        lemma_sample_headers_index(s.drop_last(), k);
        assert(s.drop_last()[k] == s[k]);
        assert(spec_sample_headers_save(s).subrange(40 * k, 40 * k + 40)
            =~= spec_sample_headers_save(s.drop_last()).subrange(40 * k, 40 * k + 40));
    }
}

/// The written payload area is as long as the waves it holds.
proof fn lemma_sample_payloads_len(s: Seq<XmSample>)
    ensures
        spec_sample_payloads_save(s).len() == spec_payloads_total(s),
        spec_payloads_total(s) >= 0,
    decreases s.len(),
{
    if s.len() > 0 {
        lemma_sample_payloads_len(s.drop_last());
    }
}

/// The declared length words of a written header area sum to the bytes
/// the waves occupy, provided each header declares its wave's length.
proof fn lemma_lengths_sum_from_headers(s: Seq<XmSample>, b: Seq<u8>, hpos: int, m: int)
    requires
        0 <= hpos,
        0 <= m <= s.len(),
        hpos + 40 * s.len() <= b.len(),
        b.subrange(hpos, hpos + 40 * s.len()) == spec_sample_headers_save(s),
        forall|k: int|
            0 <= k < s.len() ==> (#[trigger] s[k]).header.length as int == spec_payload_len(
                s[k].data,
            ),
    ensures
        spec_sample_lengths_sum(b, hpos, m) == spec_payloads_total(s.take(m)),
    decreases m,
{
    lemma_sample_headers_len(s);
    if m > 0 {
        lemma_lengths_sum_from_headers(s, b, hpos, m - 1);
        lemma_sample_headers_index(s, m - 1);
        let hk = super::xmsample::spec_sample_header_save(s[m - 1].header);
        assert(b.subrange(hpos + 40 * (m - 1), hpos + 40 * (m - 1) + 4) =~= spec_u32_le_bytes(
            s[m - 1].header.length,
        )) by {
            assert forall|t: int|
                0 <= t < 4 implies #[trigger] b.subrange(
                hpos + 40 * (m - 1),
                hpos + 40 * (m - 1) + 4,
            )[t] == spec_u32_le_bytes(s[m - 1].header.length)[t] by {
                assert(b.subrange(hpos, hpos + 40 * s.len())[40 * (m - 1) + t] == hk[t]) by {
                    assert(spec_sample_headers_save(s).subrange(
                        40 * (m - 1),
                        40 * (m - 1) + 40,
                    )[t] == hk[t]);
                }
                assert(hk[t] == spec_u32_le_bytes(s[m - 1].header.length)[t]);
            }
        }
        crate::cursor::lemma_u32_le_roundtrip(s[m - 1].header.length, b, hpos + 40 * (m - 1));
        assert(s.take(m).drop_last() =~= s.take(m - 1));
        assert(s.take(m).last() == s[m - 1]);
    } else {
        assert(s.take(0) =~= Seq::<XmSample>::empty());
    }
}

/// A written instrument record reads back as one record: walking it from
/// `pos` ends exactly where its bytes end.
pub proof fn lemma_instrument_record_parse(xi: XmInstrument, b: Seq<u8>, pos: int)
    requires
        0 <= pos,
        pos + spec_instrument_record_save(xi).len() <= b.len(),
        b.subrange(pos, pos + spec_instrument_record_save(xi).len() as int)
            == spec_instrument_record_save(xi),
        xi.header.num_samples as int == xi.sample@.len(),
        xi.header.instrument_header_len as int == 33 + spec_instr_block_save(xi.instr).len(),
        xi.sample@.len() > 0 ==> xi.instr is Classic,
        xi.instr matches XmInstrumentType::Classic(xd) ==> xd.wf(),
        forall|k: int|
            0 <= k < xi.sample@.len() ==> (#[trigger] xi.sample@[k]).header.length as int
                == spec_payload_len(xi.sample@[k].data),
    ensures
        spec_instrument_parse_end(b, pos) == Some(pos + spec_instrument_record_save(xi).len()),
{
    let hdr = spec_instrument_header_save(xi.header);
    crate::fixedstr::lemma_fixed_field_len(xi.header.name@, 22);
    assert(hdr.len() == 29);
    let blk = spec_instr_block_save(xi.instr);
    let hs = spec_sample_headers_save(xi.sample@);
    let pl = spec_sample_payloads_save(xi.sample@);
    let rec = spec_instrument_record_save(xi);
    lemma_sample_headers_len(xi.sample@);
    lemma_sample_payloads_len(xi.sample@);
    let n = xi.sample@.len() as int;
    assert(rec.len() == 33 + blk.len() + 40 * n + pl.len());
    assert(b.subrange(pos, pos + 4) =~= spec_u32_le_bytes(xi.header.instrument_header_len)) by {
        assert forall|t: int|
            0 <= t < 4 implies b.subrange(pos, pos + 4)[t] == spec_u32_le_bytes(
            xi.header.instrument_header_len,
        )[t] by {
            assert(b.subrange(pos, pos + rec.len() as int)[t] == rec[t]);
            assert(rec[t] == hdr[t]);
        }
    }
    crate::cursor::lemma_u32_le_roundtrip(xi.header.instrument_header_len, b, pos);
    assert(b.subrange(pos + 27, pos + 29) =~= spec_u16_le_bytes(xi.header.num_samples)) by {
        assert forall|t: int|
            0 <= t < 2 implies b.subrange(pos + 27, pos + 29)[t] == spec_u16_le_bytes(
            xi.header.num_samples,
        )[t] by {
            assert(b.subrange(pos, pos + rec.len() as int)[27 + t] == rec[27 + t]);
            assert(rec[27 + t] == hdr[27 + t]);
        }
    }
    crate::cursor::lemma_u16_le_roundtrip(xi.header.num_samples, b, pos + 27);
    if n == 0 {
        assert(spec_instrument_parse_end(b, pos) == Some(pos + rec.len() as int));
    } else {
        let xd = xi.instr->Classic_0;
        assert(blk.len() == 215);
        assert(xi.header.instrument_header_len == 248);
        assert(b.subrange(pos + 248, pos + 248 + 40 * n) =~= hs) by {
            assert forall|t: int|
                0 <= t < 40 * n implies b.subrange(pos + 248, pos + 248 + 40 * n)[t] == hs[t] by {
                assert(b.subrange(pos, pos + rec.len() as int)[248 + t] == rec[248 + t]);
                assert(rec[248 + t] == hs[t]);
            }
        }
        lemma_lengths_sum_from_headers(xi.sample@, b, pos + 248, n);
        assert(xi.sample@.take(n) =~= xi.sample@);
        assert(spec_sample_lengths_sum(b, pos + 248, n) == pl.len() as int);
        assert(spec_instrument_parse_end(b, pos) == Some(pos + rec.len() as int));
    }
}

/// The declared byte lengths of the first `n` of the sample headers
/// starting at `pos`, summed; header `i` is 40 bytes and stores its
/// payload length in its first word.
pub open spec fn spec_sample_lengths_sum(b: Seq<u8>, pos: int, n: int) -> int
    decreases n,
{
    if n <= 0 {
        0
    } else {
        spec_sample_lengths_sum(b, pos, n - 1) + spec_u32_le(b, pos + 40 * (n - 1))
    }
}

/// Prefixes of the declared payload total never exceed it.
pub proof fn lemma_sample_lengths_mono(b: Seq<u8>, pos: int, k: int, n: int)
    requires
        k <= n,
    ensures
        spec_sample_lengths_sum(b, pos, k) <= spec_sample_lengths_sum(b, pos, n),
    decreases n - k,
{
    if k < n {
        lemma_sample_lengths_mono(b, pos, k, n - 1);
        assert(spec_u32_le(b, pos + 40 * (n - 1)) >= 0);
    }
}

/// Where the instrument record at `pos` ends, or `None` when loading it
/// fails: the 29 header bytes and the declared header length must lie
/// inside the buffer; a record with samples also needs its 215-byte
/// block, its sample headers and every declared payload inside it.
pub open spec fn spec_instrument_parse_end(b: Seq<u8>, pos: int) -> Option<int> {
    let hl = spec_u32_le(b, pos);
    let num = spec_u16_le(b, pos + 27);
    if pos + 29 > b.len() || pos + hl > b.len() {
        None
    } else if num == 0 {
        Some(pos + hl)
    } else if pos + 248 > b.len() {
        None
    } else if pos + hl + 40 * num + spec_sample_lengths_sum(b, pos + hl, num) > b.len() {
        None
    } else {
        Some(pos + hl + 40 * num + spec_sample_lengths_sum(b, pos + hl, num))
    }
}

/// How one loaded instrument record relates to the bytes at `pos`: the
/// header fields read little-endian, one sample record per declared
/// sample, and the block fields of a record with samples.
pub open spec fn spec_instrument_loads(b: Seq<u8>, pos: int, xi: XmInstrument) -> bool {
    &&& pos + 29 <= b.len()
    &&& xi.header.instrument_header_len as int == spec_u32_le(b, pos)
    &&& xi.header.name@ == decoded_field(b.subrange(pos + 4, pos + 26))
    &&& xi.header.num_samples as int == spec_u16_le(b, pos + 27)
    &&& xi.sample@.len() == xi.header.num_samples
    &&& (xi.header.num_samples == 0 ==> xi.instr is Empty)
    &&& (xi.header.num_samples > 0 ==> (xi.instr matches XmInstrumentType::Classic(xd) && {
        &&& xd.wf()
        &&& xd.sample_for_notes@ == b.subrange(pos + 33, pos + 129)
        &&& xd.volume_envelope@ == b.subrange(pos + 129, pos + 177)
        &&& xd.panning_envelope@ == b.subrange(pos + 177, pos + 225)
        &&& xd.number_of_volume_points == b[pos + 225]
        &&& xd.volume_flag == b[pos + 233]
        &&& xd.volume_fadeout as int == spec_u16_le(b, pos + 239)
    }))
    &&& xi.samples_loaded()
}

impl XmInstrument {
    /// Every sample of the record has its payload decoded.
    pub open spec fn samples_loaded(self) -> bool {
        forall|k: int| 0 <= k < self.sample@.len() ==> (#[trigger] self.sample@[k]).data is Some
    }

    /// Load one instrument record at `pos`: the header, the default block
    /// when samples are declared, then all sample headers followed by all
    /// sample payloads.
    pub fn load(data: &[u8], pos: usize) -> (r: Result<(XmInstrument, usize), CodecError>)
        ensures
            r matches Ok((xi, p)) ==> {
                &&& p <= data@.len()
                &&& pos + 29 <= data@.len()
                &&& xi.header.instrument_header_len as int == spec_u32_le(data@, pos as int)
                &&& xi.header.name@ == decoded_field(data@.subrange(pos + 4, pos + 26))
                &&& xi.header.num_samples as int == spec_u16_le(data@, pos + 27)
                &&& xi.sample@.len() == xi.header.num_samples
                &&& (xi.header.num_samples == 0 ==> xi.instr is Empty)
                &&& (xi.header.num_samples > 0 ==> (xi.instr matches XmInstrumentType::Classic(
                    xd,
                ) && {
                    &&& xd.wf()
                    &&& xd.sample_for_notes@ == data@.subrange(pos + 33, pos + 129)
                    &&& xd.volume_envelope@ == data@.subrange(pos + 129, pos + 177)
                    &&& xd.panning_envelope@ == data@.subrange(pos + 177, pos + 225)
                    &&& xd.number_of_volume_points == data@[pos + 225]
                    &&& xd.volume_flag == data@[pos + 233]
                    &&& xd.volume_fadeout as int == spec_u16_le(data@, pos + 239)
                }))
                &&& xi.samples_loaded()
            },
            r matches Ok((xi, p)) ==> Some(p as int) == spec_instrument_parse_end(
                data@,
                pos as int,
            ) && spec_instrument_loads(data@, pos as int, xi),
            r is Err <==> spec_instrument_parse_end(data@, pos as int) is None,
    {
        let xmih = match XmInstrumentHeader::load(data, pos) {
            Ok(h) => h,
            Err(e) => {
                return Err(e);
            },
        };
        let xmih_len = xmih.instrument_header_len as usize;
        if pos > data.len() || data.len() - pos < xmih_len {
            return Err(CodecError::Truncated);
        }
        if xmih.num_samples == 0 {
            let xmi = XmInstrument {
                header: xmih,
                sample_header_size: XMSAMPLE_HEADER_SIZE as u32,
                instr: XmInstrumentType::Empty,
                sample: Vec::new(),
            };
            return Ok((xmi, pos + xmih_len));
        }
        if data.len() - pos < 33 {
            return Err(CodecError::Truncated);
        }
        let xmid = match XmInstrDefault::load(data, pos + 33) {
            Ok(x) => x,
            Err(e) => {
                return Err(e);
            },
        };
        let num = xmih.num_samples as usize;
        let ghost hl = xmih.instrument_header_len as int;
        let mut sample: Vec<XmSample> = Vec::new();
        let mut cur = pos + xmih_len;
        let mut k: usize = 0;
        while k < num
            invariant
                k <= num,
                1 <= num <= 65535,
                sample@.len() == k,
                hl == spec_u32_le(data@, pos as int),
                num == spec_u16_le(data@, pos + 27),
                pos + 29 <= data@.len(),
                pos + hl <= data@.len(),
                pos + 248 <= data@.len(),
                cur == pos + hl + 40 * k,
                cur <= data@.len(),
                forall|j: int| 0 <= j < k ==> (#[trigger] sample@[j]).data is None,
                forall|j: int|
                    0 <= j < k ==> (#[trigger] sample@[j]).header.length as int == spec_u32_le(
                        data@,
                        pos + hl + 40 * j,
                    ),
            decreases num - k,
        {
            match XmSample::load(data, cur) {
                Ok((s, p2)) => {
                    sample.push(s);
                    cur = p2;
                },
                Err(e) => {
                    proof {
                        lemma_sample_lengths_mono(data@, pos + hl, 0, num as int);
                        assert(spec_instrument_parse_end(data@, pos as int) is None);
                    }
                    return Err(e);
                },
            }
            k = k + 1;
        }
        let ghost total = pos + hl + 40 * num + spec_sample_lengths_sum(
            data@,
            pos + hl,
            num as int,
        );
        let mut k2: usize = 0;
        while k2 < num
            invariant
                k2 <= num,
                1 <= num <= 65535,
                sample@.len() == num,
                hl == spec_u32_le(data@, pos as int),
                num == spec_u16_le(data@, pos + 27),
                pos + 29 <= data@.len(),
                pos + hl <= data@.len(),
                pos + 248 <= data@.len(),
                cur == pos + hl + 40 * num + spec_sample_lengths_sum(data@, pos + hl, k2 as int),
                cur <= data@.len(),
                total == pos + hl + 40 * num + spec_sample_lengths_sum(
                    data@,
                    pos + hl,
                    num as int,
                ),
                forall|j: int| 0 <= j < k2 ==> (#[trigger] sample@[j]).data is Some,
                forall|j: int|
                    0 <= j < num ==> (#[trigger] sample@[j]).header.length as int == spec_u32_le(
                        data@,
                        pos + hl + 40 * j,
                    ),
            decreases num - k2,
        {
            let mut s = sample.remove(k2);
            let ghost pre = sample@;
            match s.add_sample(data, cur) {
                Ok(p2) => {
                    cur = p2;
                },
                Err(e) => {
                    proof {
                        assert(spec_sample_lengths_sum(data@, pos + hl, k2 + 1)
                            == spec_sample_lengths_sum(data@, pos + hl, k2 as int) + spec_u32_le(
                            data@,
                            pos + hl + 40 * k2,
                        ));
                        lemma_sample_lengths_mono(data@, pos + hl, k2 + 1, num as int);
                        assert(spec_instrument_parse_end(data@, pos as int) is None);
                    }
                    return Err(e);
                },
            }
            sample.insert(k2, s);
            proof {
                assert(spec_sample_lengths_sum(data@, pos + hl, k2 + 1)
                    == spec_sample_lengths_sum(data@, pos + hl, k2 as int) + spec_u32_le(
                    data@,
                    pos + hl + 40 * k2,
                ));
                assert forall|j: int|
                    0 <= j < num implies (#[trigger] sample@[j]).header.length as int
                    == spec_u32_le(data@, pos + hl + 40 * j) by {
                    if j < k2 {
                        assert(sample@[j] == pre[j]);
                    } else if j > k2 {
                        assert(sample@[j] == pre[j - 1]);
                    }
                }
            }
            k2 = k2 + 1;
        }
        proof {
            assert(spec_instrument_parse_end(data@, pos as int) == Some(cur as int));
        }
        let xmi = XmInstrument {
            header: xmih,
            sample_header_size: XMSAMPLE_HEADER_SIZE as u32,
            instr: XmInstrumentType::Classic(xmid),
            sample,
        };
        Ok((xmi, cur))
    }

    /// Write this instrument record: header with its true lengths, the
    /// sample header size word, the block, then all sample headers
    /// followed by all sample payloads.
    pub fn save(&mut self) -> (r: Result<Vec<u8>, CodecError>)
        requires
            old(self).sample@.len() <= 65535,
            forall|k: int|
                0 <= k < old(self).sample@.len() ==> (match (#[trigger] old(self).sample@[k]).data {
                    Some(crate::sample::SampleDataType::Depth8(d)) => d@.len() as int,
                    Some(crate::sample::SampleDataType::Depth16(d)) => 2 * d@.len() as int,
                    Option::None => 0,
                }) <= 0xFFFF_FFFF,
            old(self).instr matches XmInstrumentType::Classic(xd) ==> xd.wf(),
        ensures
            final (self).instr == old(self).instr,
            final (self).sample@.len() == old(self).sample@.len(),
            forall|k: int|
                0 <= k < final (self).sample@.len() ==> (#[trigger] final (self).sample@[k]).data
                    == old(self).sample@[k].data,
            final (self).header.num_samples as int == old(self).sample@.len(),
            final (self).header.instrument_header_len as int == 33 + spec_instr_block_save(
                old(self).instr,
            ).len(),
            final (self).header.name == old(self).header.name,
            final (self).header.instr_type == old(self).header.instr_type,
            forall|k: int|
                0 <= k < final (self).sample@.len() ==> (#[trigger] final (self).sample@[k]).header
                    .length as int == spec_payload_len(final (self).sample@[k].data),
            r matches Ok(out) ==> out@ == spec_instrument_record_save(*final (self)),
            r is Ok,
    {
        let mut i = match self.instr.save() {
            Ok(v) => v,
            Err(e) => {
                return Err(e);
            },
        };
        let mut vs: Vec<u8> = Vec::new();
        let num = self.sample.len();
        let mut k: usize = 0;
        while k < num
            invariant
                num == self.sample@.len() <= 65535,
                k <= num,
                self.instr == old(self).instr,
                self.header == old(self).header,
                vs@ == spec_sample_headers_save(self.sample@.take(k as int)),
                forall|j: int|
                    0 <= j < k ==> (#[trigger] self.sample@[j]).header.length as int
                        == spec_payload_len(self.sample@[j].data),
                forall|j: int|
                    0 <= j < num ==> (#[trigger] self.sample@[j]).data == old(self).sample@[j]
                        .data,
                forall|j: int|
                    0 <= j < self.sample@.len() ==> (match (#[trigger] self.sample@[j]).data {
                        Some(crate::sample::SampleDataType::Depth8(d)) => d@.len() as int,
                        Some(crate::sample::SampleDataType::Depth16(d)) => 2 * d@.len() as int,
                        Option::None => 0,
                    }) <= 0xFFFF_FFFF,
            decreases num - k,
        {
            let ghost before = self.sample@;
            let mut s = self.sample.remove(k);
            let mut b = match s.save() {
                Ok(v) => v,
                Err(e) => {
                    return Err(e);
                },
            };
            vs.append(&mut b);
            self.sample.insert(k, s);
            proof {
                assert(self.sample@.take(k as int) =~= before.take(k as int));
                assert(self.sample@.take(k + 1).drop_last() =~= self.sample@.take(k as int));
                assert(self.sample@.take(k + 1).last() == self.sample@[k as int]);
                assert forall|j: int|
                    0 <= j < num implies (#[trigger] self.sample@[j]).data == old(self).sample@[j]
                    .data by {}
                assert forall|j: int|
                    0 <= j < self.sample@.len() implies (match (#[trigger] self.sample@[j]).data {
                    Some(crate::sample::SampleDataType::Depth8(d)) => d@.len() as int,
                    Some(crate::sample::SampleDataType::Depth16(d)) => 2 * d@.len() as int,
                    Option::None => 0,
                }) <= 0xFFFF_FFFF by {}
            }
            k = k + 1;
        }
        proof {
            assert(self.sample@.take(num as int) =~= self.sample@);
        }
        let ghost samples_fixed = self.sample@;
        let mut k2: usize = 0;
        while k2 < num
            invariant
                num == self.sample@.len() <= 65535,
                k2 <= num,
                self.instr == old(self).instr,
                self.header == old(self).header,
                self.sample@ == samples_fixed,
                vs@ == spec_sample_headers_save(samples_fixed) + spec_sample_payloads_save(
                    samples_fixed.take(k2 as int),
                ),
                forall|j: int|
                    0 <= j < num ==> (#[trigger] self.sample@[j]).header.length as int
                        == spec_payload_len(self.sample@[j].data),
                forall|j: int|
                    0 <= j < num ==> (#[trigger] self.sample@[j]).data == old(self).sample@[j]
                        .data,
            decreases num - k2,
        {
            let mut s = self.sample.remove(k2);
            let mut b = match s.save_sample() {
                Ok(v) => v,
                Err(e) => {
                    return Err(e);
                },
            };
            vs.append(&mut b);
            self.sample.insert(k2, s);
            proof {
                assert(self.sample@ =~= samples_fixed);
                assert(samples_fixed.take(k2 + 1).drop_last() =~= samples_fixed.take(k2 as int));
                assert(samples_fixed.take(k2 + 1).last() == samples_fixed[k2 as int]);
                assert forall|j: int|
                    0 <= j < num implies (#[trigger] self.sample@[j]).data == old(self).sample@[j]
                    .data by {}
            }
            k2 = k2 + 1;
        }
        proof {
            assert(samples_fixed.take(num as int) =~= samples_fixed);
        }
        self.header.num_samples = num as u16;
        if i.len() > 0xFFFF_FFFF - 33 {
            return Err(CodecError::Encode);
        }
        self.header.instrument_header_len = XMINSTRUMENT_SIZE as u32 + 4 + i.len() as u32;
        let mut h = match self.header.save() {
            Ok(v) => v,
            Err(e) => {
                return Err(e);
            },
        };
        let mut all: Vec<u8> = Vec::new();
        all.append(&mut h);
        push_u32_le(&mut all, XMSAMPLE_HEADER_SIZE as u32);
        all.append(&mut i);
        all.append(&mut vs);
        proof {
            assert(all@ =~= spec_instrument_record_save(*self));
        }
        Ok(all)
    }

    /// The envelope stored in an envelope table: `count` points of frame
    /// and value pairs, with the given flag bits and indices, before
    /// sanitization.
    pub open spec fn spec_env_points(b: Seq<u8>, count: int) -> Seq<EnvelopePoint> {
        Seq::new(
            count as nat,
            |i: int|
                EnvelopePoint {
                    frame: spec_u16_le(b, 4 * i) as u16,
                    value: spec_u16_le(b, 4 * i + 2) as u16,
                },
        )
    }

    /// Read `count` envelope points out of a 48-byte envelope table.
    fn envelope_from_slice(src: &Vec<u8>, count: u8) -> (r: Vec<EnvelopePoint>)
        requires
            src@.len() == 48,
            count <= 12,
        ensures
            r@ == Self::spec_env_points(src@, count as int),
    {
        let mut points: Vec<EnvelopePoint> = Vec::new();
        let mut i: usize = 0;
        while i < count as usize
            invariant
                src@.len() == 48,
                count <= 12,
                i <= count,
                points@ =~= Self::spec_env_points(src@, i as int),
            decreases count - i,
        {
            let frame = read_u16_le(src.as_slice(), 4 * i);
            let value = read_u16_le(src.as_slice(), 4 * i + 2);
            points.push(EnvelopePoint { frame, value });
            proof {
                assert(points@ =~= Self::spec_env_points(src@, i + 1));
            }
            i = i + 1;
        }
        points
    }

    /// How this record converts to a unified instrument: envelopes read
    /// and sanitized, out-of-range note mappings clamped to 0, and every
    /// sample converted.
    pub open spec fn converts_to_instrument(self, r: Instrument) -> bool {
        &&& r.name@ == self.header.name@
        &&& !r.muted
        &&& (match self.instr {
                XmInstrumentType::Empty => r.instr_type is Empty,
                XmInstrumentType::Classic(xd) => r.instr_type matches InstrumentType::Classic(id)
                    && {
                    &&& id.wf()
                    &&& id.sample@.len() == self.sample@.len()
                    &&& forall|k: int|
                        0 <= k < self.sample@.len() ==> (#[trigger] self.sample@[k]).converts_to(
                            id.sample@[k],
                        )
                    &&& spec_env_table_loads(
                        id.volume_envelope,
                        xd.volume_envelope@,
                        if xd.number_of_volume_points <= 12 {
                            xd.number_of_volume_points as int
                        } else {
                            0
                        },
                        xd.volume_flag,
                        xd.volume_sustain_point,
                        xd.volume_loop_start_point,
                        xd.volume_loop_end_point,
                    )
                    &&& spec_env_table_loads(
                        id.panning_envelope,
                        xd.panning_envelope@,
                        if xd.number_of_panning_points <= 12 {
                            xd.number_of_panning_points as int
                        } else {
                            0
                        },
                        xd.panning_flag,
                        xd.panning_sustain_point,
                        xd.panning_loop_start_point,
                        xd.panning_loop_end_point,
                    )
                    &&& id.vibrato.waveform == Waveform::spec_from_raw(xd.vibrato_type)
                    &&& id.vibrato.sweep == xd.vibrato_sweep
                    &&& id.vibrato.depth == xd.vibrato_depth
                    &&& id.vibrato.speed == xd.vibrato_rate
                    &&& id.volume_fadeout == xd.volume_fadeout
                    &&& id.midi.on == (xd.midi_on == 1)
                    &&& id.midi.channel == xd.midi_channel
                    &&& id.midi.program == xd.midi_program
                    &&& id.midi.bend == xd.midi_bend
                    &&& id.midi_mute_computer == (xd.midi_mute_computer == 1)
                    &&& forall|k: int|
                        0 <= k < 96 ==> {
                            let v = #[trigger] xd.sample_for_notes@[k];
                            id.sample_for_note@[k] == (if (v as int) < self.sample@.len() as int {
                                v
                            } else {
                                0u8
                            })
                        }
                },
            })
    }

    /// Convert this record to a unified instrument: envelopes are read and
    /// sanitized, out-of-range note mappings are clamped to 0, and every
    /// sample is converted.
    pub fn to_instrument(&self) -> (r: Instrument)
        requires
            self.instr matches XmInstrumentType::Classic(xd) ==> xd.wf(),
            forall|k: int|
                0 <= k < self.sample@.len() ==> (#[trigger] self.sample@[k]).spec_frames()
                    <= 0x7FFF_FFFF,
        ensures
            self.converts_to_instrument(r),
    {
        let it: InstrumentType = match &self.instr {
            XmInstrumentType::Empty => InstrumentType::Empty,
            XmInstrumentType::Classic(xmi) => {
                let mut sample: Vec<Sample> = Vec::new();
                let nsmp = self.sample.len();
                let mut k: usize = 0;
                while k < nsmp
                    invariant
                        nsmp == self.sample@.len(),
                        k <= nsmp,
                        forall|j: int|
                            0 <= j < nsmp ==> (#[trigger] self.sample@[j]).spec_frames()
                                <= 0x7FFF_FFFF,
                        sample@.len() == k,
                        forall|j: int|
                            0 <= j < k ==> (#[trigger] self.sample@[j]).converts_to(sample@[j]),
                    decreases nsmp - k,
                {
                    let s = self.sample[k].to_sample();
                    sample.push(s);
                    k = k + 1;
                }
                let num_vol_pt: u8 = if xmi.number_of_volume_points <= 12 {
                    xmi.number_of_volume_points
                } else {
                    0
                };
                let num_pan_pt: u8 = if xmi.number_of_panning_points <= 12 {
                    xmi.number_of_panning_points
                } else {
                    0
                };
                let volume_envelope = Envelope {
                    enabled: xmi.volume_flag & 0b0001 != 0,
                    point: Self::envelope_from_slice(&xmi.volume_envelope, num_vol_pt),
                    sustain_enabled: xmi.volume_flag & 0b0010 != 0,
                    sustain_point: xmi.volume_sustain_point,
                    loop_enabled: xmi.volume_flag & 0b0100 != 0,
                    loop_start_point: xmi.volume_loop_start_point,
                    loop_end_point: xmi.volume_loop_end_point,
                }.sanitize();
                let panning_envelope = Envelope {
                    enabled: xmi.panning_flag & 0b0001 != 0,
                    point: Self::envelope_from_slice(&xmi.panning_envelope, num_pan_pt),
                    sustain_enabled: xmi.panning_flag & 0b0010 != 0,
                    sustain_point: xmi.panning_sustain_point,
                    loop_enabled: xmi.panning_flag & 0b0100 != 0,
                    loop_start_point: xmi.panning_loop_start_point,
                    loop_end_point: xmi.panning_loop_end_point,
                }.sanitize();
                let mut sample_for_note: Vec<u8> = Vec::new();
                let mut k3: usize = 0;
                while k3 < 96
                    invariant
                        xmi.sample_for_notes@.len() == 96,
                        nsmp == sample@.len(),
                        k3 <= 96,
                        sample_for_note@.len() == k3,
                        forall|j: int|
                            0 <= j < k3 ==> {
                                let v = #[trigger] xmi.sample_for_notes@[j];
                                sample_for_note@[j] == (if (v as int) < nsmp as int {
                                    v
                                } else {
                                    0u8
                                })
                            },
                        forall|j: int|
                            0 <= j < k3 ==> #[trigger] sample_for_note@[j] == 0 || (
                            sample_for_note@[j] as int) < sample@.len(),
                    decreases 96 - k3,
                {
                    let v = xmi.sample_for_notes[k3];
                    if (v as usize) < nsmp {
                        sample_for_note.push(v);
                    } else {
                        sample_for_note.push(0);
                    }
                    k3 = k3 + 1;
                }
                let id = InstrDefault {
                    sample_for_note,
                    volume_envelope,
                    panning_envelope,
                    vibrato: InstrVibrato {
                        waveform: Waveform::from_raw(xmi.vibrato_type),
                        speed: xmi.vibrato_rate,
                        depth: xmi.vibrato_depth,
                        sweep: xmi.vibrato_sweep,
                    },
                    volume_fadeout: xmi.volume_fadeout,
                    sample,
                    midi: InstrMidi {
                        on: xmi.midi_on == 1,
                        channel: xmi.midi_channel,
                        program: xmi.midi_program,
                        bend: xmi.midi_bend,
                    },
                    midi_mute_computer: xmi.midi_mute_computer == 1,
                };
                InstrumentType::Classic(id)
            },
        };
        Instrument { name: clone_string(&self.header.name), instr_type: it, muted: false }
    }

    /// Build the instrument records of every instrument of a module.
    pub fn from_module(module: &Module) -> (r: Vec<XmInstrument>)
        requires
            forall|i: int|
                0 <= i < module.instrument@.len() ==> (match (
                #[trigger] module.instrument@[i]).instr_type {
                    InstrumentType::Classic(id) => id.wf() && id.sample@.len() <= 65535
                        && id.volume_envelope.point@.len() <= 12 && id.panning_envelope.point@.len()
                        <= 12 && (forall|k: int|
                        0 <= k < id.sample@.len() ==> (#[trigger] id.sample@[k]).wf()),
                    _ => true,
                }),
        ensures
            r@.len() == module.instrument@.len(),
            forall|i: int|
                0 <= i < r@.len() ==> (#[trigger] r@[i]).header.name@ == module.instrument@[i]
                    .name@,
    {
        let mut all: Vec<XmInstrument> = Vec::new();
        let n = module.instrument.len();
        let mut i: usize = 0;
        while i < n
            invariant
                n == module.instrument@.len(),
                i <= n,
                forall|k: int|
                    0 <= k < n ==> (match (#[trigger] module.instrument@[k]).instr_type {
                        InstrumentType::Classic(id) => id.wf() && id.sample@.len() <= 65535
                            && id.volume_envelope.point@.len() <= 12 && id.panning_envelope.point@
                            .len() <= 12 && (forall|j: int|
                            0 <= j < id.sample@.len() ==> (#[trigger] id.sample@[j]).wf()),
                        _ => true,
                    }),
                all@.len() == i,
                forall|k: int|
                    0 <= k < i ==> (#[trigger] all@[k]).header.name@ == module.instrument@[k]
                        .name@,
            decreases n - i,
        {
            let instr: &Instrument = &module.instrument[i];
            let xi = XmInstrument {
                header: XmInstrumentHeader::from_instr(instr),
                sample_header_size: XMSAMPLE_HEADER_SIZE as u32,
                instr: XmInstrDefault::from_instr(instr),
                sample: XmSample::from_instr(instr),
            };
            all.push(xi);
            i = i + 1;
        }
        all
    }
}

/// What loading an envelope table yields after sanitization: the raw
/// fields when their shape is loadable, the disabled default otherwise.
pub open spec fn spec_env_table_loads(
    e: Envelope,
    table: Seq<u8>,
    count: int,
    flag: u8,
    sustain: u8,
    loop_start: u8,
    loop_end: u8,
) -> bool {
    let ok = count <= 12 && (sustain as int) < count && (loop_start as int) < count && (
    loop_end as int) < count && loop_start <= loop_end;
    if ok {
        &&& e.enabled == (flag & 0b0001 != 0)
        &&& e.point@ == XmInstrument::spec_env_points(table, count)
        &&& e.sustain_enabled == (flag & 0b0010 != 0)
        &&& e.sustain_point == sustain
        &&& e.loop_enabled == (flag & 0b0100 != 0)
        &&& e.loop_start_point == loop_start
        &&& e.loop_end_point == loop_end
    } else {
        e.spec_is_default()
    }
}

/// A written default instrument block reads back field for field
/// wherever it stands in a buffer: the three tables as subranges, every
/// byte field, and the three little-endian words.
#[verifier::rlimit(80)]
pub proof fn lemma_instr_default_roundtrip(xd: XmInstrDefault, b: Seq<u8>, pos: int)
    requires
        0 <= pos,
        pos + 215 <= b.len(),
        xd.wf(),
        b.subrange(pos, pos + 215) == spec_instr_default_save(xd),
    ensures
        b.subrange(pos, pos + 96) == xd.sample_for_notes@,
        b.subrange(pos + 96, pos + 144) == xd.volume_envelope@,
        b.subrange(pos + 144, pos + 192) == xd.panning_envelope@,
        b[pos + 192] == xd.number_of_volume_points,
        b[pos + 193] == xd.number_of_panning_points,
        b[pos + 194] == xd.volume_sustain_point,
        b[pos + 195] == xd.volume_loop_start_point,
        b[pos + 196] == xd.volume_loop_end_point,
        b[pos + 197] == xd.panning_sustain_point,
        b[pos + 198] == xd.panning_loop_start_point,
        b[pos + 199] == xd.panning_loop_end_point,
        b[pos + 200] == xd.volume_flag,
        b[pos + 201] == xd.panning_flag,
        b[pos + 202] == xd.vibrato_type,
        b[pos + 203] == xd.vibrato_sweep,
        b[pos + 204] == xd.vibrato_depth,
        b[pos + 205] == xd.vibrato_rate,
        spec_u16_le(b, pos + 206) == xd.volume_fadeout as int,
        b[pos + 208] == xd.midi_on,
        b[pos + 209] == xd.midi_channel,
        spec_u16_le(b, pos + 210) == xd.midi_program as int,
        spec_u16_le(b, pos + 212) == xd.midi_bend as int,
        b[pos + 214] == xd.midi_mute_computer,
{
    let sv = spec_instr_default_save(xd);
    assert forall|k: int| 0 <= k < 215 implies b[pos + k] == sv[k] by {
        assert(b.subrange(pos, pos + 215)[k] == sv[k]);
    }
    assert(sv[192] == xd.number_of_volume_points);
    assert(sv[193] == xd.number_of_panning_points);
    assert(sv[194] == xd.volume_sustain_point);
    assert(sv[195] == xd.volume_loop_start_point);
    assert(sv[196] == xd.volume_loop_end_point);
    assert(sv[197] == xd.panning_sustain_point);
    assert(sv[198] == xd.panning_loop_start_point);
    assert(sv[199] == xd.panning_loop_end_point);
    assert(sv[200] == xd.volume_flag);
    assert(sv[201] == xd.panning_flag);
    assert(sv[202] == xd.vibrato_type);
    assert(sv[203] == xd.vibrato_sweep);
    assert(sv[204] == xd.vibrato_depth);
    assert(sv[205] == xd.vibrato_rate);
    assert(sv[208] == xd.midi_on);
    assert(sv[209] == xd.midi_channel);
    assert(sv[214] == xd.midi_mute_computer);
    assert(b.subrange(pos, pos + 96) =~= xd.sample_for_notes@);
    assert(b.subrange(pos + 96, pos + 144) =~= xd.volume_envelope@) by {
        assert forall|k: int| 0 <= k < 48 implies b.subrange(pos + 96, pos + 144)[k]
            == xd.volume_envelope@[k] by {
            assert(b[pos + 96 + k] == sv[96 + k]);
        }
    }
    assert(b.subrange(pos + 144, pos + 192) =~= xd.panning_envelope@) by {
        assert forall|k: int| 0 <= k < 48 implies b.subrange(pos + 144, pos + 192)[k]
            == xd.panning_envelope@[k] by {
            assert(b[pos + 144 + k] == sv[144 + k]);
        }
    }
    assert(b.subrange(pos + 206, pos + 208) =~= spec_u16_le_bytes(xd.volume_fadeout)) by {
        assert(b[pos + 206] == sv[206]);
        assert(b[pos + 207] == sv[207]);
        assert(sv[206] == spec_u16_le_bytes(xd.volume_fadeout)[0]);
        assert(sv[207] == spec_u16_le_bytes(xd.volume_fadeout)[1]);
    }
    crate::cursor::lemma_u16_le_roundtrip(xd.volume_fadeout, b, pos + 206);
    assert(b.subrange(pos + 210, pos + 212) =~= spec_u16_le_bytes(xd.midi_program)) by {
        assert(b[pos + 210] == sv[210]);
        assert(b[pos + 211] == sv[211]);
        assert(sv[210] == spec_u16_le_bytes(xd.midi_program)[0]);
        assert(sv[211] == spec_u16_le_bytes(xd.midi_program)[1]);
    }
    crate::cursor::lemma_u16_le_roundtrip(xd.midi_program, b, pos + 210);
    assert(b.subrange(pos + 212, pos + 214) =~= spec_u16_le_bytes(xd.midi_bend)) by {
        assert(b[pos + 212] == sv[212]);
        assert(b[pos + 213] == sv[213]);
        assert(sv[212] == spec_u16_le_bytes(xd.midi_bend)[0]);
        assert(sv[213] == spec_u16_le_bytes(xd.midi_bend)[1]);
    }
    crate::cursor::lemma_u16_le_roundtrip(xd.midi_bend, b, pos + 212);
}

/// The envelope flag bits recover the three switches they encode.
proof fn lemma_env_flag_bits(a: bool, b: bool, c: bool)
    ensures
        ({
            let f = ((if a {
                1u8
            } else {
                0u8
            }) | (if b {
                2u8
            } else {
                0u8
            }) | (if c {
                4u8
            } else {
                0u8
            }));
            &&& (f & 0b0001 != 0 <==> a)
            &&& (f & 0b0010 != 0 <==> b)
            &&& (f & 0b0100 != 0 <==> c)
        }),
{
    let x1: u8 = if a {
        1u8
    } else {
        0u8
    };
    let x2: u8 = if b {
        2u8
    } else {
        0u8
    };
    let x4: u8 = if c {
        4u8
    } else {
        0u8
    };
    assert(((x1 | x2 | x4) & 0b0001 != 0 <==> x1 == 1) && ((x1 | x2 | x4) & 0b0010 != 0 <==> x2
        == 2) && ((x1 | x2 | x4) & 0b0100 != 0 <==> x4 == 4)) by (bit_vector)
        requires
            (x1 == 0 || x1 == 1) && (x2 == 0 || x2 == 2) && (x4 == 0 || x4 == 4),
    ;
}

/// A well-shaped envelope written into an instrument block reads back as
/// itself: the envelope table, counts, flags and indices produced by
/// `XmInstrDefault::from_envelope` load to the very same envelope.
pub proof fn lemma_envelope_block_roundtrip(e: Envelope, table: Seq<u8>)
    requires
        e.spec_shape_ok(),
        forall|k: int|
            0 <= k < e.point@.len() ==> spec_u16_le(table, 4 * k) == (#[trigger] e.point@[k]).frame
                as int && spec_u16_le(table, 4 * k + 2) == e.point@[k].value as int,
    ensures
        spec_env_table_loads(
            e,
            table,
            e.point@.len() as int,
            spec_env_flag(e),
            e.sustain_point,
            e.loop_start_point,
            e.loop_end_point,
        ),
{
    lemma_env_flag_bits(e.enabled, e.sustain_enabled, e.loop_enabled);
    let n = e.point@.len() as int;
    assert(e.point@ =~= XmInstrument::spec_env_points(table, n)) by {
        assert forall|k: int| 0 <= k < n implies e.point@[k] == XmInstrument::spec_env_points(
            table,
            n,
        )[k] by {
            assert(spec_u16_le(table, 4 * k) == e.point@[k].frame as int);
            assert(spec_u16_le(table, 4 * k + 2) == e.point@[k].value as int);
        }
    }
}

} // verus!
