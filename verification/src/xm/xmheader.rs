//! The fixed 80-byte header of an XM file, followed by the pattern-order
//! table.

use vstd::prelude::*;

use crate::cursor::push_u16_le;
use crate::cursor::push_u32_le;
use crate::cursor::read_u16_le;
use crate::cursor::read_u32_le;
use crate::cursor::spec_u16_le;
use crate::cursor::spec_u16_le_bytes;
use crate::cursor::spec_u32_le;
use crate::cursor::spec_u32_le_bytes;
use crate::error::CodecError;
use crate::fixedstr::decoded_field;
use crate::fixedstr::fixed_bytes_to_string;
use crate::fixedstr::string_to_fixed_bytes;
use crate::fixedstr::trimmed;
use crate::fixedstr::trimmed_range;
use crate::module::Module;
use crate::period_helper::FrequencyType;
use crate::fixedstr::clone_string;

verus! {

/// The id text every XM file opens with, once NUL and space padding is
/// trimmed: `Extended Module:`.
pub open spec fn xm_id_bytes() -> Seq<u8> {
    seq![
        0x45u8,
        0x78u8,
        0x74u8,
        0x65u8,
        0x6Eu8,
        0x64u8,
        0x65u8,
        0x64u8,
        0x20u8,
        0x4Du8,
        0x6Fu8,
        0x64u8,
        0x75u8,
        0x6Cu8,
        0x65u8,
        0x3Au8,
    ]
}

/// The historical pitch model flag of the XM header.
#[derive(Copy, Clone, Debug, PartialEq, Eq, Structural)]
pub enum XmFlagType {
    /// Amiga logarithmic periods.
    XmAmigaFrequencies,
    /// Linear periods.
    XmLinearFrequencies,
}

impl XmFlagType {
    /// The header word of a flag value.
    pub open spec fn spec_raw(self) -> u16 {
        match self {
            XmFlagType::XmAmigaFrequencies => 0,
            XmFlagType::XmLinearFrequencies => 1,
        }
    }

    /// The flag a header word names, if any.
    pub open spec fn spec_from_raw(v: u16) -> Option<XmFlagType> {
        match v {
            0 => Some(XmFlagType::XmAmigaFrequencies),
            1 => Some(XmFlagType::XmLinearFrequencies),
            _ => None,
        }
    }

    /// The header word of this flag.
    pub fn raw(&self) -> (r: u16)
        ensures
            r == self.spec_raw(),
    {
        match *self {
            XmFlagType::XmAmigaFrequencies => 0,
            XmFlagType::XmLinearFrequencies => 1,
        }
    }

    /// Recover the flag named by a header word; words other than 0 and 1
    /// name none.
    pub fn from_raw(v: u16) -> (r: Option<XmFlagType>)
        ensures
            r == XmFlagType::spec_from_raw(v),
    {
        match v {
            0 => Some(XmFlagType::XmAmigaFrequencies),
            1 => Some(XmFlagType::XmLinearFrequencies),
            _ => Option::None,
        }
    }
}

/// The XM file header. The id text and the 0x1A separator byte are fixed
/// by the format and written back as constants.
#[derive(Clone, Debug, PartialEq)]
pub struct XmHeader {
    /// Module name, at most 20 bytes on disk.
    pub name: String,
    /// Name of the tracker that wrote the file, at most 20 bytes on disk.
    pub tracker_name: String,
    /// Format version, 0x0104 for every file this codec writes.
    pub version_number: u16,
    /// 20 plus the length of the pattern-order table on disk.
    pub header_size: u32,
    /// Number of entries of the pattern-order table.
    pub song_length: u16,
    /// Restart index into the pattern order.
    pub restart_position: u16,
    /// Channel count.
    pub number_of_channels: u16,
    /// Pattern count.
    pub number_of_patterns: u16,
    /// Instrument count.
    pub number_of_instruments: u16,
    /// Which pitch model the module uses.
    pub flags: XmFlagType,
    /// Default ticks per row.
    pub default_tempo: u16,
    /// Default beats per minute.
    pub default_bpm: u16,
}

/// Whether the 80-byte header and its pattern-order table parse: the id
/// text, a known flags word, a header size that covers its own fixed part
/// and lies inside the buffer, and a song length that fits the table.
pub open spec fn spec_header_parse_ok(b: Seq<u8>) -> bool {
    &&& b.len() >= 80
    &&& XmFlagType::spec_from_raw(spec_u16_le(b, 74) as u16) is Some
    &&& trimmed(b.subrange(0, 17)) == xm_id_bytes()
    &&& spec_u32_le(b, 60) >= 20
    &&& 60 + spec_u32_le(b, 60) <= b.len()
    &&& spec_u16_le(b, 64) <= spec_u32_le(b, 60) - 20
}

impl XmHeader {
    /// Load the 80-byte header and the pattern-order table behind it.
    /// Returns the header, the raw pattern order, and the position where
    /// the first pattern starts.
    pub fn load(data: &[u8]) -> (r: Result<(XmHeader, Vec<u8>, usize), CodecError>)
        ensures
            r matches Ok((h, order, p)) ==> {
                &&& data@.len() >= 80
                &&& trimmed(data@.subrange(0, 17)) == xm_id_bytes()
                &&& h.name@ == decoded_field(data@.subrange(17, 37))
                &&& h.tracker_name@ == decoded_field(data@.subrange(38, 58))
                &&& h.version_number as int == spec_u16_le(data@, 58)
                &&& h.header_size as int == spec_u32_le(data@, 60)
                &&& h.song_length as int == spec_u16_le(data@, 64)
                &&& h.restart_position as int == spec_u16_le(data@, 66)
                &&& h.number_of_channels as int == spec_u16_le(data@, 68)
                &&& h.number_of_patterns as int == spec_u16_le(data@, 70)
                &&& h.number_of_instruments as int == spec_u16_le(data@, 72)
                &&& Some(h.flags) == XmFlagType::spec_from_raw(
                    spec_u16_le(data@, 74) as u16,
                )
                &&& h.default_tempo as int == spec_u16_le(data@, 76)
                &&& h.default_bpm as int == spec_u16_le(data@, 78)
                &&& h.header_size >= 20
                &&& order@ == data@.subrange(80, 80 + h.song_length)
                &&& p as int == 60 + h.header_size
                &&& p <= data@.len()
            },
            r matches Err(e) ==> {
                ||| (e == CodecError::Truncated && data@.len() < 80)
                ||| (e == CodecError::Decode && XmFlagType::spec_from_raw(
                    spec_u16_le(data@, 74) as u16,
                ) is None)
                ||| (e == CodecError::FormatMismatch && trimmed(data@.subrange(0, 17))
                    != xm_id_bytes())
                ||| (e == CodecError::Truncated && data@.len() >= 80 && (spec_u32_le(data@, 60)
                    < 20 || 60 + spec_u32_le(data@, 60) > data@.len() || spec_u16_le(data@, 64)
                    > spec_u32_le(data@, 60) - 20))
            },
            r is Err <==> !spec_header_parse_ok(data@),
    {
        if data.len() < 80 {
            return Err(CodecError::Truncated);
        }
        let flags_raw = read_u16_le(data, 74);
        let flags = match XmFlagType::from_raw(flags_raw) {
            Some(f) => f,
            Option::None => {
                return Err(CodecError::Decode);
            },
        };
        let id: &[u8] = &data[0..17];
        let (ts, te) = trimmed_range(id);
        let expected = xm_id_vec();
        if te - ts != expected.len() {
            return Err(CodecError::FormatMismatch);
        }
        let mut k: usize = 0;
        while k < expected.len()
            invariant
                ts + expected@.len() <= id@.len() <= data@.len(),
                te - ts == expected@.len(),
                k <= expected@.len(),
                id@ == data@.subrange(0, 17),
                trimmed(id@) == id@.subrange(ts as int, te as int),
                expected@ == xm_id_bytes(),
                forall|j: int| 0 <= j < k ==> id@[ts + j] == expected@[j],
            decreases expected@.len() - k,
        {
            if id[ts + k] != expected[k] {
                proof {
                    assert(trimmed(id@)[k as int] != xm_id_bytes()[k as int]);
                }
                return Err(CodecError::FormatMismatch);
            }
            k = k + 1;
        }
        proof {
            assert(trimmed(data@.subrange(0, 17)) =~= xm_id_bytes());
        }
        let name = fixed_bytes_to_string(&data[17..37]);
        let tracker_name = fixed_bytes_to_string(&data[38..58]);
        let header_size = read_u32_le(data, 60);
        let song_length = read_u16_le(data, 64);
        if header_size < 20 {
            return Err(CodecError::Truncated);
        }
        let table_len = header_size as usize - 20;
        if table_len > data.len() - 80 {
            return Err(CodecError::Truncated);
        }
        if song_length as usize > table_len {
            return Err(CodecError::Truncated);
        }
        let order: Vec<u8> = vstd::slice::slice_to_vec(
            &data[80..80 + song_length as usize],
        );
        let h = XmHeader {
            name,
            tracker_name,
            version_number: read_u16_le(data, 58),
            header_size,
            song_length,
            restart_position: read_u16_le(data, 66),
            number_of_channels: read_u16_le(data, 68),
            number_of_patterns: read_u16_le(data, 70),
            number_of_instruments: read_u16_le(data, 72),
            flags,
            default_tempo: read_u16_le(data, 76),
            default_bpm: read_u16_le(data, 78),
        };
        Ok((h, order, 80 + table_len))
    }

    /// The bytes this header writes: the fixed id text, the two name
    /// fields padded to width, the separator byte, and the counters
    /// little-endian.
    pub open spec fn spec_save(self) -> Seq<u8> {
        xm_id_padded() + crate::fixedstr::spec_fixed_field(self.name@, 20) + seq![0x1Au8]
            + crate::fixedstr::spec_fixed_field(self.tracker_name@, 20) + spec_u16_le_bytes(
            self.version_number,
        ) + spec_u32_le_bytes(self.header_size) + spec_u16_le_bytes(self.song_length)
            + spec_u16_le_bytes(self.restart_position) + spec_u16_le_bytes(self.number_of_channels)
            + spec_u16_le_bytes(self.number_of_patterns) + spec_u16_le_bytes(
            self.number_of_instruments,
        ) + spec_u16_le_bytes(self.flags.spec_raw()) + spec_u16_le_bytes(self.default_tempo)
            + spec_u16_le_bytes(self.default_bpm)
    }

    /// Write the 80 header bytes (without the pattern-order table).
    pub fn save(&self) -> (r: Vec<u8>)
        ensures
            r@ == self.spec_save(),
            r@.len() == 80,
    {
        let mut out: Vec<u8> = Vec::new();
        let mut id = xm_id_vec();
        out.append(&mut id);
        out.push(0x20);
        proof {
            assert(out@ =~= xm_id_padded());
        }
        let mut name = string_to_fixed_bytes(self.name.as_str(), 20);
        out.append(&mut name);
        out.push(0x1A);
        let mut tracker = string_to_fixed_bytes(self.tracker_name.as_str(), 20);
        out.append(&mut tracker);
        push_u16_le(&mut out, self.version_number);
        push_u32_le(&mut out, self.header_size);
        push_u16_le(&mut out, self.song_length);
        push_u16_le(&mut out, self.restart_position);
        push_u16_le(&mut out, self.number_of_channels);
        push_u16_le(&mut out, self.number_of_patterns);
        push_u16_le(&mut out, self.number_of_instruments);
        push_u16_le(&mut out, self.flags.raw());
        push_u16_le(&mut out, self.default_tempo);
        push_u16_le(&mut out, self.default_bpm);
        proof {
            assert(out@ =~= self.spec_save());
        }
        out
    }

    /// Extract the XM header and pattern order of a module. The header
    /// size accounts for a full 256-entry pattern-order table, as the
    /// historical tracker wrote it.
    pub fn from_module(module: &Module) -> (r: (XmHeader, Vec<u8>))
        requires
            module.pattern_order@.len() <= 256,
            forall|i: int| 0 <= i < module.pattern_order@.len() ==> module.pattern_order@[i] < 256,
            module.restart_position < 65536,
            module.pattern@.len() < 65536,
            module.instrument@.len() < 65536,
            module.pattern@.len() > 0 && module.pattern@[0]@.len() > 0 ==> module.pattern@[0]@[0]@
                .len() < 65536,
        ensures
            ({
                let (h, order) = r;
                &&& h.name@ == module.name@
                &&& h.song_length as int == module.pattern_order@.len()
                &&& h.restart_position as int == module.restart_position
                &&& h.number_of_patterns as int == module.pattern@.len()
                &&& h.number_of_instruments as int == module.instrument@.len()
                &&& h.number_of_channels as int == (if module.pattern@.len() > 0 {
                    if module.pattern@[0]@.len() > 0 {
                        module.pattern@[0]@[0]@.len() as int
                    } else {
                        0
                    }
                } else {
                    8
                })
                &&& h.flags == (match module.frequency_type {
                    FrequencyType::LinearFrequencies => XmFlagType::XmLinearFrequencies,
                    FrequencyType::AmigaFrequencies => XmFlagType::XmAmigaFrequencies,
                })
                &&& h.default_tempo == module.default_tempo
                &&& h.default_bpm == module.default_bpm
                &&& h.version_number == 0x0104
                &&& h.header_size == 20 + 256
                &&& order@.len() == module.pattern_order@.len()
                &&& forall|i: int|
                    0 <= i < order@.len() ==> order@[i] as int == module.pattern_order@[i]
            }),
    {
        let number_of_channels: u16 = if module.pattern.len() > 0 {
            let p0 = &module.pattern[0];
            if p0.len() > 0 {
                p0[0].len() as u16
            } else {
                0
            }
        } else {
            8
        };
        let mut order: Vec<u8> = Vec::new();
        let mut i: usize = 0;
        let n = module.pattern_order.len();
        while i < n
            invariant
                n == module.pattern_order@.len(),
                i <= n,
                forall|k: int|
                    0 <= k < n ==> #[trigger] module.pattern_order@[k] < 256,
                order@.len() == i,
                forall|k: int| 0 <= k < i ==> order@[k] as int == module.pattern_order@[k],
            decreases n - i,
        {
            order.push(module.pattern_order[i] as u8);
            i = i + 1;
        }
        let h = XmHeader {
            name: clone_string(&module.name),
            tracker_name: String::new(),
            version_number: 0x0104,
            header_size: 20 + 256,
            song_length: n as u16,
            restart_position: module.restart_position as u16,
            number_of_channels,
            number_of_patterns: module.pattern.len() as u16,
            number_of_instruments: module.instrument.len() as u16,
            flags: match module.frequency_type {
                FrequencyType::LinearFrequencies => XmFlagType::XmLinearFrequencies,
                FrequencyType::AmigaFrequencies => XmFlagType::XmAmigaFrequencies,
            },
            default_tempo: module.default_tempo,
            default_bpm: module.default_bpm,
        };
        (h, order)
    }
}

/// The 16 id bytes as a vector.
fn xm_id_vec() -> (r: Vec<u8>)
    ensures
        r@ == xm_id_bytes(),
{
    let mut v: Vec<u8> = Vec::new();
    v.push(0x45);
    v.push(0x78);
    v.push(0x74);
    v.push(0x65);
    v.push(0x6E);
    v.push(0x64);
    v.push(0x65);
    v.push(0x64);
    v.push(0x20);
    v.push(0x4D);
    v.push(0x6F);
    v.push(0x64);
    v.push(0x75);
    v.push(0x6C);
    v.push(0x65);
    v.push(0x3A);
    proof {
        assert(v@ =~= xm_id_bytes());
    }
    v
}

/// The 17-byte id field as written: the id text and one space of padding.
pub open spec fn xm_id_padded() -> Seq<u8> {
    xm_id_bytes() + seq![0x20u8]
}

/// A written file header reads back field for field: the id text checks
/// out, every counter returns as written, and the two names return
/// exactly, provided each fits its field and carries no padding of its
/// own.
#[verifier::rlimit(80)]
pub proof fn lemma_xm_header_roundtrip(h: XmHeader, b: Seq<u8>)
    requires
        b.len() >= 80,
        b.subrange(0, 80) == h.spec_save(),
        vstd::utf8::encode_utf8(h.name@).len() <= 20,
        h.name@.len() > 0 ==> !crate::fixedstr::is_trim_byte(vstd::utf8::encode_utf8(h.name@)[0])
            && !crate::fixedstr::is_trim_byte(vstd::utf8::encode_utf8(h.name@).last()),
        vstd::utf8::encode_utf8(h.tracker_name@).len() <= 20,
        h.tracker_name@.len() > 0 ==> !crate::fixedstr::is_trim_byte(
            vstd::utf8::encode_utf8(h.tracker_name@)[0],
        ) && !crate::fixedstr::is_trim_byte(vstd::utf8::encode_utf8(h.tracker_name@).last()),
    ensures
        crate::fixedstr::trimmed(b.subrange(0, 17)) == xm_id_bytes(),
        crate::fixedstr::decoded_field(b.subrange(17, 37)) == h.name@,
        crate::fixedstr::decoded_field(b.subrange(38, 58)) == h.tracker_name@,
        spec_u16_le(b, 58) == h.version_number as int,
        spec_u32_le(b, 60) == h.header_size as int,
        spec_u16_le(b, 64) == h.song_length as int,
        spec_u16_le(b, 66) == h.restart_position as int,
        spec_u16_le(b, 68) == h.number_of_channels as int,
        spec_u16_le(b, 70) == h.number_of_patterns as int,
        spec_u16_le(b, 72) == h.number_of_instruments as int,
        spec_u16_le(b, 74) == h.flags.spec_raw() as int,
        spec_u16_le(b, 76) == h.default_tempo as int,
        spec_u16_le(b, 78) == h.default_bpm as int,
{
    let sv = h.spec_save();
    assert forall|k: int| 0 <= k < 80 implies b[k] == sv[k] by {
        assert(b.subrange(0, 80)[k] == sv[k]);
    }
    // the id field: the 16 id bytes and one space of padding
    let id = b.subrange(0, 17);
    assert(id =~= xm_id_padded());
    crate::fixedstr::lemma_trim_front_index(id, 0);
    crate::fixedstr::lemma_trim_back_index(id, 16);
    assert(crate::fixedstr::trim_front(id) =~= id.skip(0));
    assert(id.skip(0) =~= id);
    assert(crate::fixedstr::trimmed(id) =~= xm_id_bytes());
    // the two name fields
    let name_bytes = vstd::utf8::encode_utf8(h.name@);
    assert(crate::fixedstr::spec_fit_len(name_bytes, 20) == name_bytes.len());
    assert(name_bytes.take(name_bytes.len() as int) =~= name_bytes);
    assert(b.subrange(17, 37) =~= name_bytes + crate::fixedstr::zero_bytes(
        20 - name_bytes.len(),
    ));
    crate::fixedstr::lemma_fixed_field_roundtrip(h.name@, 20);
    let tracker_bytes = vstd::utf8::encode_utf8(h.tracker_name@);
    assert(crate::fixedstr::spec_fit_len(tracker_bytes, 20) == tracker_bytes.len());
    assert(tracker_bytes.take(tracker_bytes.len() as int) =~= tracker_bytes);
    assert(b.subrange(38, 58) =~= tracker_bytes + crate::fixedstr::zero_bytes(
        20 - tracker_bytes.len(),
    ));
    crate::fixedstr::lemma_fixed_field_roundtrip(h.tracker_name@, 20);
    // the counters
    assert(crate::fixedstr::spec_fixed_field(h.name@, 20).len() == 20);
    assert(crate::fixedstr::spec_fixed_field(h.tracker_name@, 20).len() == 20);
    lemma_le_field16(h.version_number, b, 58);
    lemma_le_field32(h.header_size, b, 60);
    lemma_le_field16(h.song_length, b, 64);
    lemma_le_field16(h.restart_position, b, 66);
    lemma_le_field16(h.number_of_channels, b, 68);
    lemma_le_field16(h.number_of_patterns, b, 70);
    lemma_le_field16(h.number_of_instruments, b, 72);
    lemma_le_field16(h.flags.spec_raw(), b, 74);
    lemma_le_field16(h.default_tempo, b, 76);
    lemma_le_field16(h.default_bpm, b, 78);
}

/// A written header passes the load checks, whatever names it holds:
/// the id text checks out and every counter reads back, provided the
/// sizes it declares are consistent with the buffer.
pub proof fn lemma_header_save_parse_ok(h: XmHeader, b: Seq<u8>)
    requires
        b.len() >= 80,
        b.subrange(0, 80) == h.spec_save(),
        h.header_size >= 20,
        60 + h.header_size <= b.len(),
        h.song_length as int <= h.header_size - 20,
    ensures
        spec_header_parse_ok(b),
        spec_u32_le(b, 60) == h.header_size as int,
        spec_u16_le(b, 64) == h.song_length as int,
        spec_u16_le(b, 68) == h.number_of_channels as int,
        spec_u16_le(b, 70) == h.number_of_patterns as int,
        spec_u16_le(b, 72) == h.number_of_instruments as int,
{
    let sv = h.spec_save();
    crate::fixedstr::lemma_fixed_field_len(h.name@, 20);
    crate::fixedstr::lemma_fixed_field_len(h.tracker_name@, 20);
    assert forall|k: int| 0 <= k < 80 implies b[k] == sv[k] by {
        assert(b.subrange(0, 80)[k] == sv[k]);
    }
    let id = b.subrange(0, 17);
    assert(id =~= xm_id_padded());
    crate::fixedstr::lemma_trim_front_index(id, 0);
    crate::fixedstr::lemma_trim_back_index(id, 16);
    assert(crate::fixedstr::trim_front(id) =~= id.skip(0));
    assert(id.skip(0) =~= id);
    assert(crate::fixedstr::trimmed(id) =~= xm_id_bytes());
    lemma_le_field32(h.header_size, b, 60);
    lemma_le_field16(h.song_length, b, 64);
    lemma_le_field16(h.number_of_channels, b, 68);
    lemma_le_field16(h.number_of_patterns, b, 70);
    lemma_le_field16(h.number_of_instruments, b, 72);
    lemma_le_field16(h.flags.spec_raw(), b, 74);
    assert(XmFlagType::spec_from_raw(h.flags.spec_raw()) == Some(h.flags));
}

/// A little-endian word whose two bytes stand at `pos` reads back as
/// itself.
proof fn lemma_le_field16(v: u16, b: Seq<u8>, pos: int)
    requires
        0 <= pos,
        pos + 2 <= b.len(),
        b[pos] == spec_u16_le_bytes(v)[0],
        b[pos + 1] == spec_u16_le_bytes(v)[1],
    ensures
        spec_u16_le(b, pos) == v as int,
{
    assert(b.subrange(pos, pos + 2) =~= spec_u16_le_bytes(v));
    crate::cursor::lemma_u16_le_roundtrip(v, b, pos);
}

/// As `lemma_le_field16`, for a 32-bit value.
proof fn lemma_le_field32(v: u32, b: Seq<u8>, pos: int)
    requires
        0 <= pos,
        pos + 4 <= b.len(),
        b[pos] == spec_u32_le_bytes(v)[0],
        b[pos + 1] == spec_u32_le_bytes(v)[1],
        b[pos + 2] == spec_u32_le_bytes(v)[2],
        b[pos + 3] == spec_u32_le_bytes(v)[3],
    ensures
        spec_u32_le(b, pos) == v as int,
{
    assert(b.subrange(pos, pos + 4) =~= spec_u32_le_bytes(v));
    crate::cursor::lemma_u32_le_roundtrip(v, b, pos);
}

} // verus!
