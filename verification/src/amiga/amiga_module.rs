//! The Amiga MOD loader: tag-driven channel detection, fixed sample
//! headers, packed big-endian pattern words, raw signed payloads.

use vstd::prelude::*;

use crate::cursor::read_u32_be;
use crate::error::CodecError;
use crate::fixedstr::decoded_field;
use crate::fixedstr::fixed_bytes_to_string;
use crate::instr_default::InstrDefault;
use crate::instrument::Instrument;
use crate::instrument::InstrumentType;
use crate::module::Module;
use crate::module::Pattern;
use crate::module::Row;
use crate::note::Note;
use crate::patternslot::PatternSlot;
use crate::period_helper::FrequencyType;
use crate::sample::SampleDataType;

use super::amiga_sample::AmigaSample;
use super::element::Element;

verus! {

/// A MOD file held in memory.
#[derive(Clone, Debug, PartialEq)]
pub struct AmigaModule {
    /// Song title, 22 bytes on disk.
    pub title: String,
    /// The 15 or 31 sample headers.
    pub samples: Vec<AmigaSample>,
    /// Number of playback positions used.
    pub song_length: u8,
    /// Restart byte.
    pub restart_position: u8,
    /// The 128-byte position table.
    pub positions: Vec<u8>,
    /// The 4 format tag bytes.
    pub tag: Vec<u8>,
    /// The decoded patterns: pattern, row, channel.
    pub patterns: Vec<Vec<Vec<Element>>>,
    /// The raw signed sample payloads, in sample-table order.
    pub audio: Vec<Vec<i8>>,
}

/// The channel count a 4-byte format tag names, if any: the fixed tag
/// table of the ProTracker lineages, with a numeric `<n>CH`/`<n>CN`
/// fallback.
pub open spec fn spec_tag_tracks(t: Seq<u8>) -> Option<u8> {
    if t.len() != 4 {
        None
    } else if t =~= seq![0x54u8, 0x44u8, 0x5Au8, 0x31u8] {
        Some(1u8)  // TDZ1
    } else if t =~= seq![0x32u8, 0x43u8, 0x48u8, 0x4Eu8] || t =~= seq![
        0x54u8,
        0x44u8,
        0x5Au8,
        0x32u8,
    ] {
        Some(2u8)  // 2CHN, TDZ2
    } else if t =~= seq![0x54u8, 0x44u8, 0x5Au8, 0x33u8] {
        Some(3u8)  // TDZ3
    } else if t =~= seq![0x4Du8, 0x2Eu8, 0x4Bu8, 0x2Eu8] || t =~= seq![
        0x4Du8,
        0x21u8,
        0x4Bu8,
        0x21u8,
    ] || t =~= seq![0x46u8, 0x4Cu8, 0x54u8, 0x34u8] || t =~= seq![
        0x4Eu8,
        0x53u8,
        0x4Du8,
        0x53u8,
    ] || t =~= seq![0x4Cu8, 0x41u8, 0x52u8, 0x44u8] || t =~= seq![
        0x50u8,
        0x41u8,
        0x54u8,
        0x54u8,
    ] || t =~= seq![0x45u8, 0x58u8, 0x4Fu8, 0x34u8] || t =~= seq![
        0x4Eu8,
        0x2Eu8,
        0x54u8,
        0x2Eu8,
    ] || t =~= seq![0x4Du8, 0x26u8, 0x4Bu8, 0x21u8] || t =~= seq![
        0x46u8,
        0x45u8,
        0x53u8,
        0x54u8,
    ] || t =~= seq![0x43u8, 0x44u8, 0x36u8, 0x31u8] {
        Some(4u8)  // M.K. M!K! FLT4 NSMS LARD PATT EXO4 N.T. M&K! FEST CD61
    } else if t =~= seq![0x35u8, 0x43u8, 0x48u8, 0x4Eu8] {
        Some(5u8)  // 5CHN
    } else if t =~= seq![0x36u8, 0x43u8, 0x48u8, 0x4Eu8] {
        Some(6u8)  // 6CHN
    } else if t =~= seq![0x37u8, 0x43u8, 0x48u8, 0x4Eu8] {
        Some(7u8)  // 7CHN
    } else if t =~= seq![0x38u8, 0x43u8, 0x48u8, 0x4Eu8] || t =~= seq![
        0x43u8,
        0x44u8,
        0x38u8,
        0x31u8,
    ] || t =~= seq![0x4Fu8, 0x4Bu8, 0x54u8, 0x41u8] || t =~= seq![
        0x4Fu8,
        0x43u8,
        0x54u8,
        0x41u8,
    ] || t =~= seq![0x46u8, 0x4Cu8, 0x54u8, 0x38u8] || t =~= seq![
        0x45u8,
        0x58u8,
        0x4Fu8,
        0x38u8,
    ] {
        Some(8u8)  // 8CHN CD81 OKTA OCTA FLT8 EXO8
    } else if t =~= seq![0x39u8, 0x43u8, 0x48u8, 0x4Eu8] {
        Some(9u8)  // 9CHN
    } else if (t[2] == 0x43 && (t[3] == 0x48 || t[3] == 0x4E)) && 0x30 <= t[0] <= 0x39 && 0x30
        <= t[1] <= 0x39 {
        // a two-digit <n>CH / <n>CN tag, read numerically
        let v = (t[0] - 0x30) * 10 + (t[1] - 0x30);
        if v == 0 {
            None
        } else {
            Some(v as u8)
        }
    } else {
        None
    }
}

/// The largest entry of a position table, or 0 when it is empty.
pub open spec fn spec_max_position(s: Seq<u8>) -> int
    decreases s.len(),
{
    if s.len() == 0 {
        0
    } else {
        let m = spec_max_position(s.drop_last());
        if s.last() > m {
            s.last() as int
        } else {
            m
        }
    }
}

/// The byte lengths the first `n` of the 31 sample headers declare,
/// summed; header `i` starts at `0x14 + 30 * i` and stores its length as
/// a big-endian word count at offset 22.
pub open spec fn spec_sample_bytes_sum(b: Seq<u8>, n: int) -> int
    decreases n,
{
    if n <= 0 {
        0
    } else {
        spec_sample_bytes_sum(b, n - 1) + super::amiga_sample::spec_words_to_bytes(
            crate::cursor::spec_u16_be(b, 0x14 + 30 * (n - 1) + 22),
        )
    }
}

/// Prefixes of the declared sample byte total never exceed it.
proof fn lemma_sample_sum_mono(b: Seq<u8>, k: int, n: int)
    requires
        k <= n,
    ensures
        spec_sample_bytes_sum(b, k) <= spec_sample_bytes_sum(b, n),
    decreases n - k,
{
    if k < n {
        lemma_sample_sum_mono(b, k, n - 1);
        assert(super::amiga_sample::spec_words_to_bytes(
            crate::cursor::spec_u16_be(b, 0x14 + 30 * (n - 1) + 22),
        ) >= 0);
    }
}

impl AmigaModule {
    /// The channel count named by this module's format tag, if the tag is
    /// recognized.
    pub fn get_number_of_tracks(&self) -> (r: Option<u8>)
        ensures
            r == spec_tag_tracks(self.tag@),
    {
        if self.tag.len() != 4 {
            return Option::None;
        }
        let a = self.tag[0];
        let b = self.tag[1];
        let c = self.tag[2];
        let d = self.tag[3];
        proof {
            assert(self.tag@ =~= seq![a, b, c, d]);
        }
        if a == 0x54 && b == 0x44 && c == 0x5A && d == 0x31 {
            Some(1)
        } else if (a == 0x32 && b == 0x43 && c == 0x48 && d == 0x4E) || (a == 0x54 && b == 0x44 && c
            == 0x5A && d == 0x32) {
            Some(2)
        } else if a == 0x54 && b == 0x44 && c == 0x5A && d == 0x33 {
            Some(3)
        } else if (a == 0x4D && b == 0x2E && c == 0x4B && d == 0x2E) || (a == 0x4D && b == 0x21 && c
            == 0x4B && d == 0x21) || (a == 0x46 && b == 0x4C && c == 0x54 && d == 0x34) || (a
            == 0x4E && b == 0x53 && c == 0x4D && d == 0x53) || (a == 0x4C && b == 0x41 && c == 0x52
            && d == 0x44) || (a == 0x50 && b == 0x41 && c == 0x54 && d == 0x54) || (a == 0x45 && b
            == 0x58 && c == 0x4F && d == 0x34) || (a == 0x4E && b == 0x2E && c == 0x54 && d == 0x2E)
            || (a == 0x4D && b == 0x26 && c == 0x4B && d == 0x21) || (a == 0x46 && b == 0x45 && c
            == 0x53 && d == 0x54) || (a == 0x43 && b == 0x44 && c == 0x36 && d == 0x31) {
            Some(4)
        } else if a == 0x35 && b == 0x43 && c == 0x48 && d == 0x4E {
            Some(5)
        } else if a == 0x36 && b == 0x43 && c == 0x48 && d == 0x4E {
            Some(6)
        } else if a == 0x37 && b == 0x43 && c == 0x48 && d == 0x4E {
            Some(7)
        } else if (a == 0x38 && b == 0x43 && c == 0x48 && d == 0x4E) || (a == 0x43 && b == 0x44 && c
            == 0x38 && d == 0x31) || (a == 0x4F && b == 0x4B && c == 0x54 && d == 0x41) || (a
            == 0x4F && b == 0x43 && c == 0x54 && d == 0x41) || (a == 0x46 && b == 0x4C && c == 0x54
            && d == 0x38) || (a == 0x45 && b == 0x58 && c == 0x4F && d == 0x38) {
            Some(8)
        } else if a == 0x39 && b == 0x43 && c == 0x48 && d == 0x4E {
            Some(9)
        } else if (c == 0x43 && (d == 0x48 || d == 0x4E)) && 0x30 <= a && a <= 0x39 && 0x30 <= b
            && b <= 0x39 {
            let v = (a - 0x30) * 10 + (b - 0x30);
            if v == 0 {
                Option::None
            } else {
                Some(v)
            }
        } else {
            Option::None
        }
    }

    /// How many sample slots the file carries: 31 when the tag is
    /// recognized, 15 for the pre-tag format.
    pub fn get_number_of_samples(&self) -> (r: usize)
        ensures
            r == (if spec_tag_tracks(self.tag@) is Some {
                31int
            } else {
                15int
            }),
    {
        match self.get_number_of_tracks() {
            Option::None => 15,
            _ => 31,
        }
    }

    /// How many patterns the position table references: one past the
    /// highest position used.
    pub fn get_number_of_patterns(&self) -> (r: usize)
        requires
            self.positions@.len() <= 128,
        ensures
            r == 1 + spec_max_position(self.positions@),
            r >= 1,
            r <= 256,
            forall|i: int| 0 <= i < self.positions@.len() ==> (#[trigger] self.positions@[i]) < r,
    {
        let mut hi: u8 = 0;
        let n = self.positions.len();
        let mut i: usize = 0;
        while i < n
            invariant
                n == self.positions@.len(),
                i <= n,
                hi as int == spec_max_position(self.positions@.take(i as int)),
                forall|j: int| 0 <= j < i ==> (#[trigger] self.positions@[j]) <= hi,
            decreases n - i,
        {
            proof {
                assert(self.positions@.take(i + 1).drop_last() =~= self.positions@.take(i as int));
            }
            if self.positions[i] > hi {
                hi = self.positions[i];
            }
            i = i + 1;
        }
        proof {
            assert(self.positions@.take(n as int) =~= self.positions@);
        }
        1 + hi as usize
    }

    /// Load a whole MOD file. An unrecognized format tag is a hard error:
    /// the buffer is not an Amiga module; a buffer that holds the header,
    /// the declared pattern words and the declared sample bytes always
    /// loads.
    pub fn load(ser_amiga_module: &[u8]) -> (r: Result<AmigaModule, CodecError>)
        ensures
            r matches Ok(m) ==> {
                &&& ser_amiga_module@.len() >= 0x43C
                &&& m.title@ == decoded_field(ser_amiga_module@.subrange(0, 22))
                &&& m.tag@ == ser_amiga_module@.subrange(0x438, 0x43C)
                &&& spec_tag_tracks(m.tag@) is Some
                &&& m.samples@.len() == 31
                &&& m.positions@.len() == 128
                &&& m.positions@ == ser_amiga_module@.subrange(0x3B8, 0x438)
                &&& m.audio@.len() == 31
                &&& m.patterns@.len() == 1 + spec_max_position(
                    ser_amiga_module@.subrange(0x3B8, 0x438),
                )
                &&& m.patterns@.len() >= 1
                &&& forall|i: int|
                    0 <= i < 31 ==> (#[trigger] m.samples@[i]).length as int
                        == super::amiga_sample::spec_words_to_bytes(
                        crate::cursor::spec_u16_be(ser_amiga_module@, 0x14 + 30 * i + 22),
                    )
                &&& forall|i: int|
                    0 <= i < 31 ==> (#[trigger] m.audio@[i])@.len() == m.samples@[i].length
                &&& forall|i: int|
                    0 <= i < m.patterns@.len() ==> (#[trigger] m.patterns@[i])@.len() == 64
                &&& forall|i: int, j: int|
                    0 <= i < m.patterns@.len() && 0 <= j < 64 ==> (#[trigger] m.patterns@[i]@[j])@
                        .len() == spec_tag_tracks(m.tag@)->Some_0 as int
            },
            r is Err <==> ({
                let b = ser_amiga_module@;
                ||| b.len() < 0x43C
                ||| spec_tag_tracks(b.subrange(0x438, 0x43C)) is None
                ||| 0x43C + (1 + spec_max_position(b.subrange(0x3B8, 0x438))) * (256
                    * spec_tag_tracks(b.subrange(0x438, 0x43C))->Some_0 as int)
                    + spec_sample_bytes_sum(b, 31) > b.len()
            }),
            r matches Err(e) ==> e == (if ser_amiga_module@.len() < 0x43C {
                CodecError::Truncated
            } else if spec_tag_tracks(ser_amiga_module@.subrange(0x438, 0x43C)) is None {
                CodecError::FormatMismatch
            } else {
                CodecError::Truncated
            }),
    {
        let dlen = ser_amiga_module.len();
        if dlen < 0x43C {
            return Err(CodecError::Truncated);
        }
        let title = fixed_bytes_to_string(&ser_amiga_module[0..22]);
        let tag: Vec<u8> = vstd::slice::slice_to_vec(&ser_amiga_module[0x438..0x43C]);
        let mut amiga = AmigaModule {
            title,
            samples: Vec::new(),
            song_length: 0,
            restart_position: 0,
            positions: Vec::new(),
            tag,
            patterns: Vec::new(),
            audio: Vec::new(),
        };
        let number_of_tracks: usize = match amiga.get_number_of_tracks() {
            Some(n) => n as usize,
            Option::None => {
                return Err(CodecError::FormatMismatch);
            },
        };
        // 31 sample headers from offset 20
        let mut pos: usize = 0x14;
        let mut i: usize = 0;
        while i < 31
            invariant
                i <= 31,
                dlen == ser_amiga_module@.len(),
                amiga.samples@.len() == i,
                amiga.positions@.len() == 0,
                amiga.patterns@.len() == 0,
                amiga.audio@.len() == 0,
                pos == 0x14 + 30 * i,
                amiga.tag@ == ser_amiga_module@.subrange(0x438, 0x43C),
                amiga.title@ == decoded_field(ser_amiga_module@.subrange(0, 22)),
                spec_tag_tracks(amiga.tag@) is Some,
                number_of_tracks == spec_tag_tracks(amiga.tag@)->Some_0 as int,
                ser_amiga_module@.len() >= 0x43C,
                forall|j: int|
                    0 <= j < i ==> (#[trigger] amiga.samples@[j]).length as int
                        == super::amiga_sample::spec_words_to_bytes(
                        crate::cursor::spec_u16_be(ser_amiga_module@, 0x14 + 30 * j + 22),
                    ),
            decreases 31 - i,
        {
            match AmigaSample::load(ser_amiga_module, pos) {
                Ok((sample, p)) => {
                    amiga.samples.push(sample);
                    pos = p;
                },
                Err(e) => {
                    proof {
                        assert(pos + 30 <= 0x3B6);
                        assert(false);
                    }
                    return Err(e);
                },
            }
            i = i + 1;
        }
        // song length, restart byte, 128 positions, tag skip
        if dlen - pos < 134 {
            return Err(CodecError::Truncated);
        }
        amiga.song_length = ser_amiga_module[pos];
        amiga.restart_position = ser_amiga_module[pos + 1];
        let mut k: usize = 0;
        while k < 128
            invariant
                k <= 128,
                dlen == ser_amiga_module@.len(),
                amiga.positions@.len() == k,
                pos == 0x3B6,
                pos + 134 <= ser_amiga_module@.len(),
                amiga.samples@.len() == 31,
                amiga.patterns@.len() == 0,
                amiga.audio@.len() == 0,
                amiga.tag@ == ser_amiga_module@.subrange(0x438, 0x43C),
                amiga.title@ == decoded_field(ser_amiga_module@.subrange(0, 22)),
                spec_tag_tracks(amiga.tag@) is Some,
                number_of_tracks == spec_tag_tracks(amiga.tag@)->Some_0 as int,
                ser_amiga_module@.len() >= 0x43C,
                amiga.positions@ == ser_amiga_module@.subrange(0x3B8, 0x3B8 + k),
                forall|j: int|
                    0 <= j < 31 ==> (#[trigger] amiga.samples@[j]).length as int
                        == super::amiga_sample::spec_words_to_bytes(
                        crate::cursor::spec_u16_be(ser_amiga_module@, 0x14 + 30 * j + 22),
                    ),
            decreases 128 - k,
        {
            amiga.positions.push(ser_amiga_module[pos + 2 + k]);
            proof {
                assert(amiga.positions@ =~= ser_amiga_module@.subrange(0x3B8, 0x3B8 + (k + 1)));
            }
            k = k + 1;
        }
        proof {
            assert(amiga.positions@ =~= ser_amiga_module@.subrange(0x3B8, 0x438));
        }
        let mut cur = pos + 130;
        // skip the 4 tag bytes of the 31-sample format
        cur = cur + 4;
        // patterns
        let number_of_patterns = amiga.get_number_of_patterns();
        let ghost npat_spec = 1 + spec_max_position(ser_amiga_module@.subrange(0x3B8, 0x438));
        let ghost per_pattern = 256 * number_of_tracks as int;
        let mut p: usize = 0;
        while p < number_of_patterns
            invariant
                p <= number_of_patterns <= 256,
                number_of_tracks <= 99,
                number_of_patterns == npat_spec,
                npat_spec == 1 + spec_max_position(ser_amiga_module@.subrange(0x3B8, 0x438)),
                per_pattern == 256 * number_of_tracks as int,
                dlen == ser_amiga_module@.len(),
                amiga.audio@.len() == 0,
                cur as int == 0x43C + p * per_pattern,
                cur <= ser_amiga_module@.len(),
                amiga.patterns@.len() == p,
                amiga.samples@.len() == 31,
                amiga.positions@.len() == 128,
                amiga.positions@ == ser_amiga_module@.subrange(0x3B8, 0x438),
                amiga.tag@ == ser_amiga_module@.subrange(0x438, 0x43C),
                amiga.title@ == decoded_field(ser_amiga_module@.subrange(0, 22)),
                spec_tag_tracks(amiga.tag@) is Some,
                number_of_tracks == spec_tag_tracks(amiga.tag@)->Some_0 as int,
                ser_amiga_module@.len() >= 0x43C,
                forall|j: int|
                    0 <= j < 31 ==> (#[trigger] amiga.samples@[j]).length as int
                        == super::amiga_sample::spec_words_to_bytes(
                        crate::cursor::spec_u16_be(ser_amiga_module@, 0x14 + 30 * j + 22),
                    ),
                forall|a: int|
                    0 <= a < p ==> (#[trigger] amiga.patterns@[a])@.len() == 64,
                forall|a: int, b: int|
                    0 <= a < p && 0 <= b < 64 ==> (#[trigger] amiga.patterns@[a]@[b])@.len()
                        == number_of_tracks as int,
            decreases number_of_patterns - p,
        {
            let mut pattern: Vec<Vec<Element>> = Vec::new();
            let mut row_i: usize = 0;
            while row_i < 64
                invariant
                    row_i <= 64,
                    pattern@.len() == row_i,
                    number_of_tracks <= 99,
                    p < number_of_patterns <= 256,
                    number_of_patterns == npat_spec,
                    npat_spec == 1 + spec_max_position(ser_amiga_module@.subrange(0x3B8, 0x438)),
                    per_pattern == 256 * number_of_tracks as int,
                    spec_tag_tracks(ser_amiga_module@.subrange(0x438, 0x43C)) is Some,
                    number_of_tracks == spec_tag_tracks(
                        ser_amiga_module@.subrange(0x438, 0x43C),
                    )->Some_0 as int,
                    dlen == ser_amiga_module@.len(),
                    ser_amiga_module@.len() >= 0x43C,
                    cur as int == 0x43C + p * per_pattern + row_i * (4 * number_of_tracks as int),
                    cur <= ser_amiga_module@.len(),
                    forall|b: int|
                        0 <= b < row_i ==> (#[trigger] pattern@[b])@.len() == number_of_tracks
                            as int,
                decreases 64 - row_i,
            {
                let mut row: Vec<Element> = Vec::new();
                let mut e: usize = 0;
                while e < number_of_tracks
                    invariant
                        e <= number_of_tracks <= 99,
                        row@.len() == e,
                        row_i < 64,
                        p < number_of_patterns <= 256,
                        number_of_patterns == npat_spec,
                        npat_spec == 1 + spec_max_position(
                            ser_amiga_module@.subrange(0x3B8, 0x438),
                        ),
                        per_pattern == 256 * number_of_tracks as int,
                        spec_tag_tracks(ser_amiga_module@.subrange(0x438, 0x43C)) is Some,
                        number_of_tracks == spec_tag_tracks(
                            ser_amiga_module@.subrange(0x438, 0x43C),
                        )->Some_0 as int,
                        dlen == ser_amiga_module@.len(),
                        ser_amiga_module@.len() >= 0x43C,
                        cur as int == 0x43C + p * per_pattern + row_i * (4 * number_of_tracks
                            as int) + 4 * e,
                        cur <= ser_amiga_module@.len(),
                    decreases number_of_tracks - e,
                {
                    if dlen - cur < 4 {
                        proof {
                            let tr = number_of_tracks as int;
                            assert(p * per_pattern + row_i * (4 * tr) + 4 * e + 4 <= npat_spec
                                * per_pattern) by (nonlinear_arith)
                                requires
                                    0 <= p < npat_spec,
                                    0 <= row_i < 64,
                                    0 <= e < tr,
                                    per_pattern == 256 * tr,
                            ;
                            lemma_sample_sum_mono(ser_amiga_module@, 0, 31);
                            assert(0x43C + npat_spec * per_pattern + spec_sample_bytes_sum(
                                ser_amiga_module@,
                                31,
                            ) > dlen);
                        }
                        return Err(CodecError::Truncated);
                    }
                    let word = read_u32_be(ser_amiga_module, cur);
                    row.push(Element::deserialize(word));
                    cur = cur + 4;
                    e = e + 1;
                }
                pattern.push(row);
                proof {
                    let tr = number_of_tracks as int;
                    assert((row_i + 1) * (4 * tr) == row_i * (4 * tr) + 4 * tr) by (nonlinear_arith);
                }
                row_i = row_i + 1;
            }
            amiga.patterns.push(pattern);
            proof {
                assert((p + 1) * per_pattern == p * per_pattern + per_pattern) by (nonlinear_arith);
                assert(64 * (4 * number_of_tracks as int) == per_pattern);
            }
            p = p + 1;
        }
        // raw signed sample payloads, in table order
        let mut s_i: usize = 0;
        while s_i < 31
            invariant
                s_i <= 31,
                dlen == ser_amiga_module@.len(),
                amiga.audio@.len() == s_i,
                number_of_patterns == npat_spec,
                npat_spec == 1 + spec_max_position(ser_amiga_module@.subrange(0x3B8, 0x438)),
                per_pattern == 256 * number_of_tracks as int,
                cur as int == 0x43C + npat_spec * per_pattern + spec_sample_bytes_sum(
                    ser_amiga_module@,
                    s_i as int,
                ),
                cur <= ser_amiga_module@.len(),
                amiga.samples@.len() == 31,
                amiga.positions@.len() == 128,
                amiga.positions@ == ser_amiga_module@.subrange(0x3B8, 0x438),
                amiga.patterns@.len() == number_of_patterns >= 1,
                amiga.tag@ == ser_amiga_module@.subrange(0x438, 0x43C),
                amiga.title@ == decoded_field(ser_amiga_module@.subrange(0, 22)),
                spec_tag_tracks(amiga.tag@) is Some,
                number_of_tracks == spec_tag_tracks(amiga.tag@)->Some_0 as int,
                ser_amiga_module@.len() >= 0x43C,
                forall|j: int|
                    0 <= j < 31 ==> (#[trigger] amiga.samples@[j]).length as int
                        == super::amiga_sample::spec_words_to_bytes(
                        crate::cursor::spec_u16_be(ser_amiga_module@, 0x14 + 30 * j + 22),
                    ),
                forall|j: int|
                    0 <= j < s_i ==> (#[trigger] amiga.audio@[j])@.len() == amiga.samples@[j]
                        .length,
                forall|a: int|
                    0 <= a < amiga.patterns@.len() ==> (#[trigger] amiga.patterns@[a])@.len() == 64,
                forall|a: int, b: int|
                    0 <= a < amiga.patterns@.len() && 0 <= b < 64 ==> (
                    #[trigger] amiga.patterns@[a]@[b])@.len() == number_of_tracks as int,
            decreases 31 - s_i,
        {
            let l = amiga.samples[s_i].length as usize;
            if dlen - cur < l {
                proof {
                    assert(spec_sample_bytes_sum(ser_amiga_module@, s_i + 1)
                        == spec_sample_bytes_sum(ser_amiga_module@, s_i as int) + l as int);
                    lemma_sample_sum_mono(ser_amiga_module@, s_i + 1, 31);
                    assert(0x43C + npat_spec * per_pattern + spec_sample_bytes_sum(
                        ser_amiga_module@,
                        31,
                    ) > dlen);
                }
                return Err(CodecError::Truncated);
            }
            let mut wave: Vec<i8> = Vec::new();
            let mut w: usize = 0;
            while w < l
                invariant
                    w <= l,
                    dlen == ser_amiga_module@.len(),
                    cur + l <= ser_amiga_module@.len(),
                    wave@.len() == w,
                decreases l - w,
            {
                wave.push(ser_amiga_module[cur + w] as i8);
                w = w + 1;
            }
            cur = cur + l;
            proof {
                assert(spec_sample_bytes_sum(ser_amiga_module@, s_i + 1)
                    == spec_sample_bytes_sum(ser_amiga_module@, s_i as int) + l as int);
            }
            amiga.audio.push(wave);
            s_i = s_i + 1;
        }
        proof {
            assert(0x43C + npat_spec * per_pattern + spec_sample_bytes_sum(ser_amiga_module@, 31)
                <= dlen);
        }
        Ok(amiga)
    }

    /// One decoded MOD pattern as unified rows: period-table notes carry
    /// over, the volume column stays empty.
    pub fn amiga_to_module_pattern(p: &Vec<Vec<Element>>) -> (r: Pattern)
        ensures
            r@.len() == p@.len(),
            forall|i: int|
                0 <= i < r@.len() ==> (#[trigger] r@[i])@.len() == p@[i]@.len(),
            forall|i: int, j: int|
                0 <= i < r@.len() && 0 <= j < r@[i]@.len() ==> (#[trigger] r@[i]@[j])
                    == spec_slot_of_element(p@[i]@[j]),
    {
        let mut dp: Pattern = Vec::new();
        let nrows = p.len();
        let mut i: usize = 0;
        while i < nrows
            invariant
                nrows == p@.len(),
                i <= nrows,
                dp@.len() == i,
                forall|a: int| 0 <= a < i ==> (#[trigger] dp@[a])@.len() == p@[a]@.len(),
                forall|a: int, b: int|
                    0 <= a < i && 0 <= b < dp@[a]@.len() ==> (#[trigger] dp@[a]@[b])
                        == spec_slot_of_element(p@[a]@[b]),
            decreases nrows - i,
        {
            let src_row: &Vec<Element> = &p[i];
            let ncols = src_row.len();
            let mut new_row: Row = Vec::new();
            let mut j: usize = 0;
            while j < ncols
                invariant
                    ncols == src_row@.len(),
                    j <= ncols,
                    new_row@.len() == j,
                    forall|b: int|
                        0 <= b < j ==> (#[trigger] new_row@[b]) == spec_slot_of_element(
                            src_row@[b],
                        ),
                decreases ncols - j,
            {
                let e = src_row[j];
                let note = match Note::try_from_value(e.note) {
                    Some(n) => n,
                    Option::None => Note::Empty,
                };
                new_row.push(
                    PatternSlot {
                        note,
                        instrument: e.instrument,
                        volume: 0,
                        effect_type: e.effect,
                        effect_parameter: e.data,
                    },
                );
                j = j + 1;
            }
            dp.push(new_row);
            i = i + 1;
        }
        dp
    }

    /// Convert one sample slot to a unified instrument holding its header
    /// fields and its wave.
    fn to_instr(&self, sample_index: usize) -> (r: Instrument)
        requires
            sample_index < self.samples@.len(),
            sample_index < self.audio@.len(),
        ensures
            r.instr_type matches InstrumentType::Classic(id) && id.sample@.len() == 1
                && id.sample@[0].name@ == self.samples@[sample_index as int].name@ && (
            id.sample@[0].data matches SampleDataType::Depth8(v) && v@ == self.audio@[sample_index
                as int]@),
            r.name@ == self.samples@[sample_index as int].name@,
    {
        let mut sample = self.samples[sample_index].to_sample();
        let wave: &Vec<i8> = &self.audio[sample_index];
        let w = wave.clone();
        assert(w@ =~= wave@);
        sample.data = SampleDataType::Depth8(w);
        let name = crate::fixedstr::clone_string(&sample.name);
        let mut idef = InstrDefault::default();
        idef.sample.push(sample);
        Instrument { name, instr_type: InstrumentType::Classic(idef), muted: false }
    }

    /// Convert to the unified module: Amiga frequencies, the classic
    /// default tempo of 6 ticks at 125 beats per minute, the full
    /// position table as pattern order, one instrument per sample slot.
    pub fn to_module(&self) -> (r: Module)
        requires
            self.samples@.len() == self.audio@.len(),
        ensures
            r.name@ == self.title@,
            r.frequency_type == FrequencyType::AmigaFrequencies,
            r.default_tempo == 6,
            r.default_bpm == 125,
            r.pattern_order@.len() == self.positions@.len(),
            forall|i: int|
                0 <= i < r.pattern_order@.len() ==> r.pattern_order@[i] == self.positions@[i]
                    as usize,
            r.pattern@.len() == self.patterns@.len(),
            forall|i: int|
                0 <= i < r.pattern@.len() ==> (#[trigger] r.pattern@[i])@.len()
                    == self.patterns@[i]@.len(),
            forall|i: int, j: int|
                0 <= i < r.pattern@.len() && 0 <= j < r.pattern@[i]@.len() ==> (
                #[trigger] r.pattern@[i]@[j])@.len() == self.patterns@[i]@[j]@.len(),
            forall|i: int, j: int, k: int|
                0 <= i < r.pattern@.len() && 0 <= j < r.pattern@[i]@.len() && 0 <= k
                    < r.pattern@[i]@[j]@.len() ==> (#[trigger] r.pattern@[i]@[j]@[k])
                    == spec_slot_of_element(self.patterns@[i]@[j]@[k]),
            r.instrument@.len() == self.samples@.len(),
            forall|i: int|
                0 <= i < r.instrument@.len() ==> (#[trigger] r.instrument@[i]).name@
                    == self.samples@[i].name@,
            forall|i: int|
                0 <= i < r.instrument@.len() ==> ((#[trigger] r.instrument@[i]).instr_type
                    matches InstrumentType::Classic(id) && id.sample@.len() == 1 && (
                id.sample@[0].data matches SampleDataType::Depth8(v) && v@ == self.audio@[i]@)),
    {
        let mut pattern_order: Vec<usize> = Vec::new();
        let n_pos = self.positions.len();
        let mut i: usize = 0;
        while i < n_pos
            invariant
                n_pos == self.positions@.len(),
                i <= n_pos,
                pattern_order@.len() == i,
                forall|j: int|
                    0 <= j < i ==> pattern_order@[j] == self.positions@[j] as usize,
            decreases n_pos - i,
        {
            pattern_order.push(self.positions[i] as usize);
            i = i + 1;
        }
        let npat = self.patterns.len();
        let mut pattern: Vec<Pattern> = Vec::new();
        let mut j: usize = 0;
        while j < npat
            invariant
                npat == self.patterns@.len(),
                j <= npat,
                pattern@.len() == j,
                forall|a: int|
                    0 <= a < j ==> (#[trigger] pattern@[a])@.len() == self.patterns@[a]@.len(),
                forall|a: int, b: int|
                    0 <= a < j && 0 <= b < pattern@[a]@.len() ==> (#[trigger] pattern@[a]@[b])@
                        .len() == self.patterns@[a]@[b]@.len(),
                forall|a: int, b: int, c: int|
                    0 <= a < j && 0 <= b < pattern@[a]@.len() && 0 <= c < pattern@[a]@[b]@.len()
                        ==> (#[trigger] pattern@[a]@[b]@[c]) == spec_slot_of_element(
                        self.patterns@[a]@[b]@[c],
                    ),
            decreases npat - j,
        {
            let p2 = Self::amiga_to_module_pattern(&self.patterns[j]);
            pattern.push(p2);
            j = j + 1;
        }
        let nsmp = self.samples.len();
        let mut instrument: Vec<Instrument> = Vec::new();
        let mut t: usize = 0;
        while t < nsmp
            invariant
                nsmp == self.samples@.len(),
                nsmp == self.audio@.len(),
                t <= nsmp,
                instrument@.len() == t,
                forall|k: int|
                    0 <= k < t ==> (#[trigger] instrument@[k]).name@ == self.samples@[k].name@,
                forall|k: int|
                    0 <= k < t ==> ((#[trigger] instrument@[k]).instr_type
                        matches InstrumentType::Classic(id) && id.sample@.len() == 1 && (
                    id.sample@[0].data matches SampleDataType::Depth8(v) && v@
                        == self.audio@[k]@)),
            decreases nsmp - t,
        {
            let instr = self.to_instr(t);
            instrument.push(instr);
            t = t + 1;
        }
        Module {
            name: crate::fixedstr::clone_string(&self.title),
            comment: String::new(),
            frequency_type: FrequencyType::AmigaFrequencies,
            restart_position: 0,
            default_tempo: 6,
            default_bpm: 125,
            pattern_order,
            pattern,
            instrument,
        }
    }
}

/// The unified cell of one decoded MOD cell: the volume column is unused
/// by the MOD format.
pub open spec fn spec_slot_of_element(e: Element) -> PatternSlot {
    PatternSlot {
        note: match Note::spec_from_value(e.note) {
            Some(n) => n,
            None => Note::Empty,
        },
        instrument: e.instrument,
        volume: 0,
        effect_type: e.effect,
        effect_parameter: e.data,
    }
}

} // verus!
