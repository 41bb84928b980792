//! The whole-file XM codec: header, pattern order, patterns, instruments.

use vstd::prelude::*;

use vstd::utf8::decode_utf8;
use vstd::utf8::encode_utf8;
use vstd::utf8::valid_utf8;

use crate::error::CodecError;
use crate::fixedstr::push_decimal;
use crate::fixedstr::push_decimal2;
use crate::fixedstr::spec_decimal2_bytes;
use crate::fixedstr::spec_decimal_bytes;
use crate::fixedstr::string_from_utf8_checked;
use vstd::string::StrSliceExecFns;
use crate::module::Module;
use crate::module::Pattern;
use crate::module::pattern_view;
use crate::period_helper::FrequencyType;

use super::xmheader::lemma_header_save_parse_ok;
use super::xmheader::spec_header_parse_ok;
use super::xmheader::XmFlagType;
use super::xmheader::XmHeader;
use crate::cursor::spec_u16_le;
use crate::cursor::spec_u32_le;
use crate::fixedstr::clone_string;
use super::xminstrument::spec_instr_block_save;
use super::xminstrument::spec_instrument_loads;
use super::xminstrument::spec_instrument_parse_end;
use super::xminstrument::spec_instrument_record_save;
use super::xminstrument::XmInstrument;
use super::xminstrument::XmInstrumentType;
use super::xmpattern::lemma_pattern_header_roundtrip;
use super::xmpattern::spec_pattern_header_save;
use super::xmpattern::spec_slots_parse;
use super::xmpattern::spec_pattern_loads;
use super::xmpattern::spec_pattern_parse_end;
use super::xmpattern::XmPattern;

verus! {

/// An XM file held in memory: its header and decoded records.
#[derive(Clone, Debug, PartialEq)]
pub struct XmModule {
    /// The file header.
    pub header: XmHeader,
    /// The pattern playback order, raw bytes.
    pub pattern_order: Vec<u8>,
    /// The patterns.
    pub pattern: Vec<XmPattern>,
    /// The instruments.
    pub instrument: Vec<XmInstrument>,
}

/// Where `n` consecutive pattern records starting at `pos` end, or
/// `None` when one of them fails to load.
pub open spec fn spec_patterns_parse_end(b: Seq<u8>, pos: int, n: int) -> Option<int>
    decreases n,
{
    if n <= 0 {
        Some(pos)
    } else {
        match spec_pattern_parse_end(b, pos) {
            None => None,
            Some(p) => spec_patterns_parse_end(b, p, n - 1),
        }
    }
}

/// Where `n` consecutive instrument records starting at `pos` end, or
/// `None` when one of them fails to load.
pub open spec fn spec_instruments_parse_end(b: Seq<u8>, pos: int, n: int) -> Option<int>
    decreases n,
{
    if n <= 0 {
        Some(pos)
    } else {
        match spec_instrument_parse_end(b, pos) {
            None => None,
            Some(p) => spec_instruments_parse_end(b, p, n - 1),
        }
    }
}

/// Walking one more pattern record continues from where the previous ones
/// ended.
proof fn lemma_patterns_end_snoc(b: Seq<u8>, pos: int, n: int)
    requires
        n >= 0,
    ensures
        spec_patterns_parse_end(b, pos, n + 1) == (match spec_patterns_parse_end(b, pos, n) {
            None => None::<int>,
            Some(p) => spec_pattern_parse_end(b, p),
        }),
    decreases n,
{
    if n == 0 {
        assert(spec_patterns_parse_end(b, pos, 0) == Some(pos));
        match spec_pattern_parse_end(b, pos) {
            None => {
                assert(spec_patterns_parse_end(b, pos, 1) is None);
            },
            Some(p) => {
                assert(spec_patterns_parse_end(b, p, 0) == Some(p));
                assert(spec_patterns_parse_end(b, pos, 1) == Some(p));
            },
        }
    } else {
        match spec_pattern_parse_end(b, pos) {
            None => {
                assert(spec_patterns_parse_end(b, pos, n + 1) is None);
                assert(spec_patterns_parse_end(b, pos, n) is None);
            },
            Some(p) => {
                lemma_patterns_end_snoc(b, p, n - 1);
                assert(spec_patterns_parse_end(b, pos, n + 1) == spec_patterns_parse_end(
                    b,
                    p,
                    n,
                ));
                assert(spec_patterns_parse_end(b, pos, n) == spec_patterns_parse_end(
                    b,
                    p,
                    n - 1,
                ));
            },
        }
    }
}

/// Walking one more instrument record continues from where the previous
/// ones ended.
proof fn lemma_instruments_end_snoc(b: Seq<u8>, pos: int, n: int)
    requires
        n >= 0,
    ensures
        spec_instruments_parse_end(b, pos, n + 1) == (match spec_instruments_parse_end(b, pos, n) {
            None => None::<int>,
            Some(p) => spec_instrument_parse_end(b, p),
        }),
    decreases n,
{
    if n == 0 {
        assert(spec_instruments_parse_end(b, pos, 0) == Some(pos));
        match spec_instrument_parse_end(b, pos) {
            None => {
                assert(spec_instruments_parse_end(b, pos, 1) is None);
            },
            Some(p) => {
                assert(spec_instruments_parse_end(b, p, 0) == Some(p));
                assert(spec_instruments_parse_end(b, pos, 1) == Some(p));
            },
        }
    } else {
        match spec_instrument_parse_end(b, pos) {
            None => {
                assert(spec_instruments_parse_end(b, pos, n + 1) is None);
                assert(spec_instruments_parse_end(b, pos, n) is None);
            },
            Some(p) => {
                lemma_instruments_end_snoc(b, p, n - 1);
                assert(spec_instruments_parse_end(b, pos, n + 1) == spec_instruments_parse_end(
                    b,
                    p,
                    n,
                ));
                assert(spec_instruments_parse_end(b, pos, n) == spec_instruments_parse_end(
                    b,
                    p,
                    n - 1,
                ));
            },
        }
    }
}

/// A failing record anywhere in the walk fails the whole walk.
proof fn lemma_patterns_end_fail(b: Seq<u8>, pos: int, i: int, n: int, at: int)
    requires
        0 <= i < n,
        spec_patterns_parse_end(b, pos, i) == Some(at),
        spec_pattern_parse_end(b, at) is None,
    ensures
        spec_patterns_parse_end(b, pos, n) is None,
    decreases i,
{
    if i == 0 {
        assert(at == pos);
    } else {
        match spec_pattern_parse_end(b, pos) {
            None => {
                assert(false);
            },
            Some(p) => {
                lemma_patterns_end_fail(b, p, i - 1, n - 1, at);
            },
        }
    }
}

/// A failing record anywhere in the walk fails the whole walk.
proof fn lemma_instruments_end_fail(b: Seq<u8>, pos: int, i: int, n: int, at: int)
    requires
        0 <= i < n,
        spec_instruments_parse_end(b, pos, i) == Some(at),
        spec_instrument_parse_end(b, at) is None,
    ensures
        spec_instruments_parse_end(b, pos, n) is None,
    decreases i,
{
    if i == 0 {
        assert(at == pos);
    } else {
        match spec_instrument_parse_end(b, pos) {
            None => {
                assert(false);
            },
            Some(p) => {
                lemma_instruments_end_fail(b, p, i - 1, n - 1, at);
            },
        }
    }
}

/// The bytes one pattern record writes: its header, then its packed
/// cells.
pub open spec fn spec_pattern_record_save(p: XmPattern) -> Seq<u8> {
    spec_pattern_header_save(p.header) + XmPattern::spec_rows_save(pattern_view(p.pattern))
}

/// The pattern records of a file, written in order.
pub open spec fn spec_pattern_records_save(ps: Seq<XmPattern>) -> Seq<u8>
    decreases ps.len(),
{
    if ps.len() == 0 {
        Seq::<u8>::empty()
    } else {
        spec_pattern_records_save(ps.drop_last()) + spec_pattern_record_save(ps.last())
    }
}

/// Record bytes laid out in order split around the first record.
proof fn lemma_pattern_records_save_first(ps: Seq<XmPattern>)
    requires
        ps.len() > 0,
    ensures
        spec_pattern_records_save(ps) == spec_pattern_record_save(ps[0])
            + spec_pattern_records_save(ps.drop_first()),
    decreases ps.len(),
{
    if ps.len() == 1 {
        assert(ps.drop_last() =~= Seq::<XmPattern>::empty());
        assert(ps.drop_first() =~= Seq::<XmPattern>::empty());
        assert(ps.last() == ps[0]);
        assert(spec_pattern_record_save(ps[0]) + spec_pattern_records_save(ps.drop_first())
            =~= spec_pattern_record_save(ps[0]));
    } else {
        lemma_pattern_records_save_first(ps.drop_last());
        assert(ps.drop_last()[0] == ps[0]);
        assert(ps.drop_last().drop_first() =~= ps.drop_first().drop_last());
        assert(ps.drop_first().last() == ps.last());
        assert(spec_pattern_records_save(ps) =~= spec_pattern_record_save(ps[0])
            + spec_pattern_records_save(ps.drop_first()));
    }
}

/// The saved pattern records of a file parse back record by record:
/// walking as many records as were written ends exactly where their
/// bytes end, wherever they stand in a buffer.
pub proof fn lemma_pattern_records_parse(ps: Seq<XmPattern>, b: Seq<u8>, pos: int)
    requires
        0 <= pos,
        pos + spec_pattern_records_save(ps).len() <= b.len(),
        b.subrange(pos, pos + spec_pattern_records_save(ps).len() as int)
            == spec_pattern_records_save(ps),
        forall|k: int| 0 <= k < ps.len() ==> (#[trigger] ps[k]).header.pattern_header_len == 9,
        forall|k: int|
            0 <= k < ps.len() ==> (#[trigger] ps[k]).header.pattern_data_size as int
                == XmPattern::spec_rows_save(pattern_view(ps[k].pattern)).len(),
    ensures
        spec_patterns_parse_end(b, pos, ps.len() as int) == Some(
            pos + spec_pattern_records_save(ps).len(),
        ),
    decreases ps.len(),
{
    if ps.len() > 0 {
        let p0v = ps[0];
        let hdr = spec_pattern_header_save(p0v.header);
        let rows = XmPattern::spec_rows_save(pattern_view(p0v.pattern));
        let rec = spec_pattern_record_save(p0v);
        lemma_pattern_records_save_first(ps);
        let total = spec_pattern_records_save(ps);
        let rest = spec_pattern_records_save(ps.drop_first());
        assert(total == rec + rest);
        assert(rec == hdr + rows);
        assert(hdr.len() == 9);
        let pds = p0v.header.pattern_data_size as int;
        assert(rows.len() == pds);
        assert(b.subrange(pos, pos + 9) =~= hdr) by {
            assert forall|t: int| 0 <= t < 9 implies b.subrange(pos, pos + 9)[t] == hdr[t] by {
                assert(b.subrange(pos, pos + total.len() as int)[t] == total[t]);
                assert(total[t] == rec[t]);
            }
        }
        lemma_pattern_header_roundtrip(p0v.header, b, pos);
        assert(b.subrange(pos + 9, pos + 9 + pds) =~= rows) by {
            assert forall|t: int| 0 <= t < pds implies b.subrange(pos + 9, pos + 9 + pds)[t]
                == rows[t] by {
                assert(b.subrange(pos, pos + total.len() as int)[9 + t] == total[9 + t]);
                assert(total[9 + t] == rec[9 + t]);
            }
        }
        super::xmpattern::lemma_rows_stream_parse(pattern_view(p0v.pattern));
        assert(spec_slots_parse(b.subrange(pos + 9, pos + 9 + pds), 0) is Some);
        assert(spec_pattern_parse_end(b, pos) == Some(pos + 9 + pds));
        let pos2 = pos + rec.len() as int;
        assert(b.subrange(pos2, pos2 + rest.len() as int) =~= rest) by {
            assert forall|t: int| 0 <= t < rest.len() implies b.subrange(
                pos2,
                pos2 + rest.len() as int,
            )[t] == rest[t] by {
                assert(b.subrange(pos, pos + total.len() as int)[rec.len() + t] == total[rec.len()
                    + t]);
                assert(total[rec.len() + t] == rest[t]);
            }
        }
        assert(forall|k: int|
            0 <= k < ps.drop_first().len() ==> #[trigger] ps.drop_first()[k] == ps[k + 1]);
        lemma_pattern_records_parse(ps.drop_first(), b, pos2);
        assert(spec_patterns_parse_end(b, pos, ps.len() as int) == spec_patterns_parse_end(
            b,
            pos + 9 + pds,
            ps.len() - 1,
        ));
    }
}

/// The instrument records of a file, written in order.
pub open spec fn spec_instrument_records_save(is: Seq<XmInstrument>) -> Seq<u8>
    decreases is.len(),
{
    if is.len() == 0 {
        Seq::<u8>::empty()
    } else {
        spec_instrument_records_save(is.drop_last()) + spec_instrument_record_save(is.last())
    }
}

/// Record bytes laid out in order split around the first record.
proof fn lemma_instrument_records_save_first(recs: Seq<XmInstrument>)
    requires
        recs.len() > 0,
    ensures
        spec_instrument_records_save(recs) == spec_instrument_record_save(recs[0])
            + spec_instrument_records_save(recs.drop_first()),
    decreases recs.len(),
{
    if recs.len() == 1 {
        assert(recs.drop_last() =~= Seq::<XmInstrument>::empty());
        assert(recs.drop_first() =~= Seq::<XmInstrument>::empty());
        assert(recs.last() == recs[0]);
        assert(spec_instrument_record_save(recs[0]) + spec_instrument_records_save(
            recs.drop_first(),
        ) =~= spec_instrument_record_save(recs[0]));
    } else {
        lemma_instrument_records_save_first(recs.drop_last());
        assert(recs.drop_last()[0] == recs[0]);
        assert(recs.drop_last().drop_first() =~= recs.drop_first().drop_last());
        assert(recs.drop_first().last() == recs.last());
        assert(spec_instrument_records_save(recs) =~= spec_instrument_record_save(recs[0])
            + spec_instrument_records_save(recs.drop_first()));
    }
}

/// The saved instrument records of a file parse back record by record:
/// walking as many records as were written ends exactly where their
/// bytes end, provided each record's header agrees with what it carries,
/// as `XmInstrument::save` guarantees of what it wrote.
pub proof fn lemma_instrument_records_parse(recs: Seq<XmInstrument>, b: Seq<u8>, pos: int)
    requires
        0 <= pos,
        pos + spec_instrument_records_save(recs).len() <= b.len(),
        b.subrange(pos, pos + spec_instrument_records_save(recs).len() as int)
            == spec_instrument_records_save(recs),
        forall|k: int|
            0 <= k < recs.len() ==> (#[trigger] recs[k]).header.num_samples as int
                == recs[k].sample@.len(),
        forall|k: int|
            0 <= k < recs.len() ==> (#[trigger] recs[k]).header.instrument_header_len as int == 33
                + spec_instr_block_save(recs[k].instr).len(),
        forall|k: int|
            0 <= k < recs.len() ==> ((#[trigger] recs[k]).sample@.len() > 0 ==> recs[k].instr
                is Classic),
        forall|k: int|
            0 <= k < recs.len() ==> ((#[trigger] recs[k]).instr
                matches XmInstrumentType::Classic(xd) ==> xd.wf()),
        forall|k: int, j: int|
            0 <= k < recs.len() && 0 <= j < recs[k].sample@.len() ==> (
            #[trigger] recs[k].sample@[j]).header.length as int
                == super::xminstrument::spec_payload_len(recs[k].sample@[j].data),
    ensures
        spec_instruments_parse_end(b, pos, recs.len() as int) == Some(
            pos + spec_instrument_records_save(recs).len(),
        ),
    decreases recs.len(),
{
    if recs.len() > 0 {
        let r0 = recs[0];
        let rec = spec_instrument_record_save(r0);
        lemma_instrument_records_save_first(recs);
        let total = spec_instrument_records_save(recs);
        let rest = spec_instrument_records_save(recs.drop_first());
        assert(total == rec + rest);
        assert(b.subrange(pos, pos + rec.len() as int) =~= rec) by {
            assert forall|t: int|
                0 <= t < rec.len() implies b.subrange(pos, pos + rec.len() as int)[t]
                == rec[t] by {
                assert(b.subrange(pos, pos + total.len() as int)[t] == total[t]);
                assert(total[t] == rec[t]);
            }
        }
        super::xminstrument::lemma_instrument_record_parse(r0, b, pos);
        let pos2 = pos + rec.len() as int;
        assert(b.subrange(pos2, pos2 + rest.len() as int) =~= rest) by {
            assert forall|t: int|
                0 <= t < rest.len() implies b.subrange(pos2, pos2 + rest.len() as int)[t]
                == rest[t] by {
                assert(b.subrange(pos, pos + total.len() as int)[rec.len() + t] == total[rec.len()
                    + t]);
                assert(total[rec.len() + t] == rest[t]);
            }
        }
        assert(forall|k: int|
            0 <= k < recs.drop_first().len() ==> #[trigger] recs.drop_first()[k] == recs[k + 1]);
        lemma_instrument_records_parse(recs.drop_first(), b, pos2);
        assert(spec_instruments_parse_end(b, pos, recs.len() as int) == spec_instruments_parse_end(
            b,
            pos2,
            recs.len() - 1,
        ));
    }
}

/// A file written by `save` loads again: the header checks pass, and
/// walking as many pattern and instrument records as the header counts
/// ends exactly at the end of the bytes, so `load`'s failure condition
/// is false on them. The hypotheses are what `save` and the per-record
/// writers guarantee of what they wrote.
#[verifier::rlimit(100)]
pub proof fn lemma_saved_module_loads(m: XmModule, b: Seq<u8>)
    requires
        b == m.header.spec_save() + m.pattern_order@ + spec_pattern_records_save(m.pattern@)
            + spec_instrument_records_save(m.instrument@),
        m.header.header_size as int == 20 + m.pattern_order@.len(),
        m.header.song_length as int == m.pattern_order@.len(),
        m.header.number_of_patterns as int == m.pattern@.len(),
        m.header.number_of_instruments as int == m.instrument@.len(),
        forall|k: int|
            0 <= k < m.pattern@.len() ==> (#[trigger] m.pattern@[k]).header.pattern_header_len
                == 9,
        forall|k: int|
            0 <= k < m.pattern@.len() ==> (#[trigger] m.pattern@[k]).header.pattern_data_size
                as int == XmPattern::spec_rows_save(pattern_view(m.pattern@[k].pattern)).len(),
        forall|k: int|
            0 <= k < m.instrument@.len() ==> (#[trigger] m.instrument@[k]).header.num_samples
                as int == m.instrument@[k].sample@.len(),
        forall|k: int|
            0 <= k < m.instrument@.len() ==> (#[trigger] m.instrument@[k]).header
                .instrument_header_len as int == 33 + spec_instr_block_save(
                m.instrument@[k].instr,
            ).len(),
        forall|k: int|
            0 <= k < m.instrument@.len() ==> ((#[trigger] m.instrument@[k]).sample@.len() > 0
                ==> m.instrument@[k].instr is Classic),
        forall|k: int|
            0 <= k < m.instrument@.len() ==> ((#[trigger] m.instrument@[k]).instr
                matches XmInstrumentType::Classic(xd) ==> xd.wf()),
        forall|k: int, j: int|
            0 <= k < m.instrument@.len() && 0 <= j < m.instrument@[k].sample@.len() ==> (
            #[trigger] m.instrument@[k].sample@[j]).header.length as int
                == super::xminstrument::spec_payload_len(m.instrument@[k].sample@[j].data),
    ensures
        spec_header_parse_ok(b),
        spec_u16_le(b, 70) == m.pattern@.len(),
        spec_u16_le(b, 72) == m.instrument@.len(),
        spec_patterns_parse_end(b, 60 + spec_u32_le(b, 60), m.pattern@.len() as int) == Some(
            80 + m.pattern_order@.len() as int + spec_pattern_records_save(m.pattern@).len()
                as int,
        ),
        spec_instruments_parse_end(
            b,
            80 + m.pattern_order@.len() as int + spec_pattern_records_save(m.pattern@).len()
                as int,
            m.instrument@.len() as int,
        ) == Some(b.len() as int),
{
    crate::fixedstr::lemma_fixed_field_len(m.header.name@, 20);
    crate::fixedstr::lemma_fixed_field_len(m.header.tracker_name@, 20);
    assert(m.header.spec_save().len() == 80);
    assert(b.subrange(0, 80) =~= m.header.spec_save());
    lemma_header_save_parse_ok(m.header, b);
    let p0 = 80 + m.pattern_order@.len() as int;
    let patb = spec_pattern_records_save(m.pattern@);
    assert(b.subrange(p0, p0 + patb.len() as int) =~= patb);
    lemma_pattern_records_parse(m.pattern@, b, p0);
    assert(60 + spec_u32_le(b, 60) == p0);
    let p1 = p0 + patb.len() as int;
    let insb = spec_instrument_records_save(m.instrument@);
    assert(b.subrange(p1, p1 + insb.len() as int) =~= insb);
    lemma_instrument_records_parse(m.instrument@, b, p1);
    assert(p1 + insb.len() == b.len());
}

/// The comment bytes recorded for a loaded module: the tracker name and
/// the format version as major.minor.
pub open spec fn spec_comment_bytes(tracker: Seq<char>, v: int) -> Seq<u8> {
    encode_utf8(tracker) + seq![0x20u8, 0x28u8] + spec_decimal_bytes(v / 256) + seq![0x2Eu8]
        + spec_decimal2_bytes(v % 256) + seq![0x29u8]
}

/// Build the comment string of a loaded module.
fn make_comment(tracker: &String, version: u16) -> (r: String)
    ensures
        r@ == decode_utf8(spec_comment_bytes(tracker@, version as int)),
{
    let mut bytes: Vec<u8> = tracker.as_str().as_bytes_vec();
    let ghost enc = bytes@;
    bytes.push(0x20);
    bytes.push(0x28);
    push_decimal(&mut bytes, version / 256);
    bytes.push(0x2E);
    push_decimal2(&mut bytes, version % 256);
    bytes.push(0x29);
    proof {
        crate::fixedstr::lemma_decimal_bytes_ascii(version as int / 256);
        crate::fixedstr::lemma_decimal_bytes_ascii(version as int % 256);
        let tail = bytes@.skip(enc.len() as int);
        assert(bytes@ =~= enc + tail);
        assert(forall|i: int| 0 <= i < tail.len() ==> tail[i] < 0x80);
        crate::fixedstr::lemma_ascii_bytes_valid_utf8(tail);
        vstd::utf8::encode_utf8_valid_utf8(tracker@);
        vstd::utf8::valid_utf8_concat(enc, tail);
        assert(valid_utf8(bytes@));
        assert(bytes@ =~= spec_comment_bytes(tracker@, version as int));
    }
    string_from_utf8_checked(bytes)
}

impl XmModule {
    /// Load a whole XM file: the header, then every pattern, then every
    /// instrument, in file order.
    pub fn load(data: &[u8]) -> (r: Result<XmModule, CodecError>)
        ensures
            r matches Ok(m) ==> {
                &&& data@.len() >= 80
                &&& crate::fixedstr::trimmed(data@.subrange(0, 17))
                    == super::xmheader::xm_id_bytes()
                &&& m.pattern_order@ == data@.subrange(80, 80 + m.header.song_length)
                &&& m.pattern@.len() == m.header.number_of_patterns
                &&& m.instrument@.len() == m.header.number_of_instruments
                &&& m.header.number_of_channels as int == spec_u16_le(data@, 68)
                &&& forall|k: int|
                    #![trigger m.pattern@[k]]
                    #![trigger spec_patterns_parse_end(data@, 60 + spec_u32_le(data@, 60), k)]
                    0 <= k < m.pattern@.len() ==> spec_patterns_parse_end(
                        data@,
                        60 + spec_u32_le(data@, 60),
                        k,
                    ) is Some && spec_pattern_loads(
                        data@,
                        spec_patterns_parse_end(data@, 60 + spec_u32_le(data@, 60), k)->Some_0,
                        m.header.number_of_channels as int,
                        m.pattern@[k],
                    )
                &&& forall|k: int|
                    #![trigger m.instrument@[k]]
                    0 <= k < m.instrument@.len() ==> ({
                        let base = spec_patterns_parse_end(
                            data@,
                            60 + spec_u32_le(data@, 60),
                            m.header.number_of_patterns as int,
                        )->Some_0;
                        spec_instruments_parse_end(data@, base, k) is Some
                            && spec_instrument_loads(
                            data@,
                            spec_instruments_parse_end(data@, base, k)->Some_0,
                            m.instrument@[k],
                        )
                    })
                &&& forall|k: int|
                    0 <= k < m.instrument@.len() ==> (#[trigger] m.instrument@[k]).samples_loaded()
            },
            r is Err <==> ({
                let b = data@;
                let p0 = 60 + spec_u32_le(b, 60);
                let npat = spec_u16_le(b, 70);
                let ninstr = spec_u16_le(b, 72);
                ||| !spec_header_parse_ok(b)
                ||| spec_patterns_parse_end(b, p0, npat) is None
                ||| (spec_patterns_parse_end(b, p0, npat) matches Some(p1)
                    && spec_instruments_parse_end(b, p1, ninstr) is None)
            }),
    {
        let (header, pattern_order, p0) = match XmHeader::load(data) {
            Ok(t) => t,
            Err(e) => {
                return Err(e);
            },
        };
        let mut pos = p0;
        let npat = header.number_of_patterns as usize;
        let mut pattern: Vec<XmPattern> = Vec::new();
        let mut i: usize = 0;
        while i < npat
            invariant
                i <= npat,
                pattern@.len() == i,
                pos <= data@.len(),
                spec_header_parse_ok(data@),
                p0 == 60 + spec_u32_le(data@, 60),
                npat == spec_u16_le(data@, 70),
                header.number_of_channels as int == spec_u16_le(data@, 68),
                header.number_of_instruments as int == spec_u16_le(data@, 72),
                spec_patterns_parse_end(data@, p0 as int, i as int) == Some(pos as int),
                forall|k: int|
                    #![trigger pattern@[k]]
                    #![trigger spec_patterns_parse_end(data@, p0 as int, k)]
                    0 <= k < i ==> spec_patterns_parse_end(data@, p0 as int, k) is Some
                        && spec_pattern_loads(
                        data@,
                        spec_patterns_parse_end(data@, p0 as int, k)->Some_0,
                        header.number_of_channels as int,
                        pattern@[k],
                    ),
            decreases npat - i,
        {
            let ghost at = pos as int;
            let ghost prev = pattern@;
            match XmPattern::load(data, pos, header.number_of_channels) {
                Ok((xmp, p2)) => {
                    proof {
                        lemma_patterns_end_snoc(data@, p0 as int, i as int);
                    }
                    pattern.push(xmp);
                    pos = p2;
                    proof {
                        assert forall|k: int|
                            #![trigger pattern@[k]]
                            #![trigger spec_patterns_parse_end(data@, p0 as int, k)]
                            0 <= k < i + 1 implies spec_patterns_parse_end(
                            data@,
                            p0 as int,
                            k,
                        ) is Some && spec_pattern_loads(
                            data@,
                            spec_patterns_parse_end(data@, p0 as int, k)->Some_0,
                            header.number_of_channels as int,
                            pattern@[k],
                        ) by {
                            if k < i {
                                assert(pattern@[k] == prev[k]);
                            } else {
                                assert(pattern@[k] == xmp);
                                assert(spec_patterns_parse_end(data@, p0 as int, i as int) == Some(
                                    at,
                                ));
                            }
                        }
                    }
                },
                Err(e) => {
                    proof {
                        lemma_patterns_end_fail(data@, p0 as int, i as int, npat as int, pos as int);
                    }
                    return Err(e);
                },
            }
            i = i + 1;
        }
        let ghost p1 = pos as int;
        let ninstr = header.number_of_instruments as usize;
        let mut instrument: Vec<XmInstrument> = Vec::new();
        let mut j: usize = 0;
        while j < ninstr
            invariant
                j <= ninstr,
                instrument@.len() == j,
                pos <= data@.len(),
                spec_header_parse_ok(data@),
                p1 == spec_patterns_parse_end(
                    data@,
                    60 + spec_u32_le(data@, 60),
                    spec_u16_le(data@, 70),
                )->Some_0,
                spec_patterns_parse_end(
                    data@,
                    60 + spec_u32_le(data@, 60),
                    spec_u16_le(data@, 70),
                ) is Some,
                ninstr == spec_u16_le(data@, 72),
                spec_instruments_parse_end(data@, p1, j as int) == Some(pos as int),
                forall|k: int|
                    #![trigger instrument@[k]]
                    #![trigger spec_instruments_parse_end(data@, p1, k)]
                    0 <= k < j ==> spec_instruments_parse_end(data@, p1, k) is Some
                        && spec_instrument_loads(
                        data@,
                        spec_instruments_parse_end(data@, p1, k)->Some_0,
                        instrument@[k],
                    ),
                forall|k: int|
                    0 <= k < j ==> (#[trigger] instrument@[k]).samples_loaded(),
            decreases ninstr - j,
        {
            let ghost at = pos as int;
            let ghost prev = instrument@;
            match XmInstrument::load(data, pos) {
                Ok((xmi, p2)) => {
                    proof {
                        lemma_instruments_end_snoc(data@, p1, j as int);
                    }
                    instrument.push(xmi);
                    pos = p2;
                    proof {
                        assert forall|k: int|
                            #![trigger instrument@[k]]
                            #![trigger spec_instruments_parse_end(data@, p1, k)]
                            0 <= k < j + 1 implies spec_instruments_parse_end(
                            data@,
                            p1,
                            k,
                        ) is Some && spec_instrument_loads(
                            data@,
                            spec_instruments_parse_end(data@, p1, k)->Some_0,
                            instrument@[k],
                        ) by {
                            if k < j {
                                assert(instrument@[k] == prev[k]);
                            } else {
                                assert(instrument@[k] == xmi);
                                assert(spec_instruments_parse_end(data@, p1, j as int) == Some(at));
                            }
                        }
                    }
                },
                Err(e) => {
                    proof {
                        lemma_instruments_end_fail(data@, p1, j as int, ninstr as int, pos as int);
                    }
                    return Err(e);
                },
            }
            j = j + 1;
        }
        Ok(XmModule { header, pattern_order, pattern, instrument })
    }

    /// Convert to the unified module: header fields carried over, the
    /// comment recording the writing tracker, every pattern's rows and
    /// every instrument converted in order.
    pub fn to_module(&self) -> (r: Module)
        requires
            forall|k: int|
                0 <= k < self.instrument@.len() ==> ((#[trigger] self.instrument@[k]).instr
                    matches super::xminstrument::XmInstrumentType::Classic(xd) ==> xd.wf()),
            forall|k: int, j: int|
                0 <= k < self.instrument@.len() && 0 <= j < self.instrument@[k].sample@.len() ==> (
                #[trigger] self.instrument@[k].sample@[j]).spec_frames() <= 0x7FFF_FFFF,
        ensures
            r.name@ == self.header.name@,
            r.comment@ == decode_utf8(
                spec_comment_bytes(self.header.tracker_name@, self.header.version_number as int),
            ),
            r.frequency_type == (match self.header.flags {
                XmFlagType::XmAmigaFrequencies => FrequencyType::AmigaFrequencies,
                XmFlagType::XmLinearFrequencies => FrequencyType::LinearFrequencies,
            }),
            r.restart_position == self.header.restart_position,
            r.default_tempo == self.header.default_tempo,
            r.default_bpm == self.header.default_bpm,
            r.pattern_order@.len() == self.pattern_order@.len(),
            forall|k: int|
                0 <= k < r.pattern_order@.len() ==> r.pattern_order@[k] == self.pattern_order@[k]
                    as usize,
            r.pattern@.len() == self.pattern@.len(),
            forall|k: int|
                0 <= k < r.pattern@.len() ==> pattern_view(#[trigger] r.pattern@[k])
                    == pattern_view(self.pattern@[k].pattern),
            r.instrument@.len() == self.instrument@.len(),
            forall|k: int|
                0 <= k < r.instrument@.len() ==> (#[trigger] self.instrument@[k])
                    .converts_to_instrument(r.instrument@[k]),
    {
        let n_order = self.pattern_order.len();
        let mut pattern_order: Vec<usize> = Vec::new();
        let mut i: usize = 0;
        while i < n_order
            invariant
                n_order == self.pattern_order@.len(),
                i <= n_order,
                pattern_order@.len() == i,
                forall|k: int|
                    0 <= k < i ==> pattern_order@[k] == self.pattern_order@[k] as usize,
            decreases n_order - i,
        {
            pattern_order.push(self.pattern_order[i] as usize);
            i = i + 1;
        }
        let npat = self.pattern.len();
        let mut pattern: Vec<Pattern> = Vec::new();
        let mut j: usize = 0;
        while j < npat
            invariant
                npat == self.pattern@.len(),
                j <= npat,
                pattern@.len() == j,
                forall|k: int|
                    0 <= k < j ==> pattern_view(#[trigger] pattern@[k]) == pattern_view(
                        self.pattern@[k].pattern,
                    ),
            decreases npat - j,
        {
            let src: &XmPattern = &self.pattern[j];
            let nrows = src.pattern.len();
            let mut p: Pattern = Vec::new();
            let mut k: usize = 0;
            while k < nrows
                invariant
                    nrows == src.pattern@.len(),
                    k <= nrows,
                    p@.len() == k,
                    forall|t: int| 0 <= t < k ==> (#[trigger] p@[t])@ == src.pattern@[t]@,
                decreases nrows - k,
            {
                let row = src.pattern[k].clone();
                assert(row@ =~= src.pattern@[k as int]@);
                p.push(row);
                k = k + 1;
            }
            proof {
                assert(pattern_view(p) =~= pattern_view(src.pattern));
            }
            pattern.push(p);
            j = j + 1;
        }
        let ninstr = self.instrument.len();
        let mut instrument: Vec<crate::instrument::Instrument> = Vec::new();
        let mut t: usize = 0;
        while t < ninstr
            invariant
                ninstr == self.instrument@.len(),
                t <= ninstr,
                forall|k: int|
                    0 <= k < ninstr ==> ((#[trigger] self.instrument@[k]).instr
                        matches super::xminstrument::XmInstrumentType::Classic(xd) ==> xd.wf()),
                forall|k: int, j2: int|
                    0 <= k < ninstr && 0 <= j2 < self.instrument@[k].sample@.len() ==> (
                    #[trigger] self.instrument@[k].sample@[j2]).spec_frames() <= 0x7FFF_FFFF,
                instrument@.len() == t,
                forall|k: int|
                    0 <= k < t ==> (#[trigger] self.instrument@[k]).converts_to_instrument(
                        instrument@[k],
                    ),
            decreases ninstr - t,
        {
            let instr = self.instrument[t].to_instrument();
            instrument.push(instr);
            t = t + 1;
        }
        Module {
            name: clone_string(&self.header.name),
            comment: make_comment(&self.header.tracker_name, self.header.version_number),
            frequency_type: match self.header.flags {
                XmFlagType::XmAmigaFrequencies => FrequencyType::AmigaFrequencies,
                XmFlagType::XmLinearFrequencies => FrequencyType::LinearFrequencies,
            },
            restart_position: self.header.restart_position as usize,
            default_tempo: self.header.default_tempo,
            default_bpm: self.header.default_bpm,
            pattern_order,
            pattern,
            instrument,
        }
    }

    /// Build the file records of a module.
    pub fn from_module(module: &Module) -> (r: XmModule)
        requires
            module.pattern_order@.len() <= 256,
            forall|i: int| 0 <= i < module.pattern_order@.len() ==> module.pattern_order@[i] < 256,
            module.restart_position < 65536,
            module.pattern@.len() < 65536,
            module.instrument@.len() < 65536,
            module.pattern@.len() > 0 && module.pattern@[0]@.len() > 0 ==> module.pattern@[0]@[0]@
                .len() < 65536,
            forall|i: int|
                0 <= i < module.pattern@.len() ==> (#[trigger] module.pattern@[i])@.len() <= 4095
                    && (module.pattern@[i]@.len() == 0 || module.pattern@[i]@[0]@.len() <= 256),
            forall|i: int|
                0 <= i < module.instrument@.len() ==> (match (
                #[trigger] module.instrument@[i]).instr_type {
                    crate::instrument::InstrumentType::Classic(id) => id.wf() && id.sample@.len()
                        <= 65535 && id.volume_envelope.point@.len() <= 12
                        && id.panning_envelope.point@.len() <= 12 && (forall|k: int|
                        0 <= k < id.sample@.len() ==> (#[trigger] id.sample@[k]).wf()),
                    _ => true,
                }),
        ensures
            r.header.name@ == module.name@,
            r.header.number_of_patterns as int == module.pattern@.len(),
            r.header.number_of_instruments as int == module.instrument@.len(),
            r.pattern_order@.len() == module.pattern_order@.len(),
            forall|i: int|
                0 <= i < r.pattern_order@.len() ==> r.pattern_order@[i] as int
                    == module.pattern_order@[i],
            r.pattern@.len() == module.pattern@.len(),
            forall|i: int|
                0 <= i < r.pattern@.len() ==> pattern_view((#[trigger] r.pattern@[i]).pattern)
                    =~= pattern_view(module.pattern@[i]),
            r.instrument@.len() == module.instrument@.len(),
            forall|i: int|
                0 <= i < r.instrument@.len() ==> (#[trigger] r.instrument@[i]).header.name@
                    == module.instrument@[i].name@,
    {
        let (header, pattern_order) = XmHeader::from_module(module);
        let pattern = XmPattern::from_module(module);
        let instrument = XmInstrument::from_module(module);
        XmModule { header, pattern_order, pattern, instrument }
    }

    /// Write the whole file: the header sized for the real pattern-order
    /// table, the table itself, then every pattern and instrument.
    #[verifier::rlimit(100)]
    pub fn save(&mut self) -> (r: Result<Vec<u8>, CodecError>)
        requires
            old(self).pattern_order@.len() <= 0xFFFF_FFFF - 20,
            forall|i: int|
                0 <= i < old(self).pattern@.len() ==> XmPattern::spec_rows_save(
                    pattern_view((#[trigger] old(self).pattern@[i]).pattern),
                ).len() <= 65535,
            forall|i: int|
                0 <= i < old(self).instrument@.len() ==> {
                    &&& (#[trigger] old(self).instrument@[i]).sample@.len() <= 65535
                    &&& ((old(self).instrument@[i]).instr
                        matches super::xminstrument::XmInstrumentType::Classic(xd) ==> xd.wf())
                    &&& forall|k: int|
                        0 <= k < old(self).instrument@[i].sample@.len() ==> (match (
                        #[trigger] old(self).instrument@[i].sample@[k]).data {
                            Some(crate::sample::SampleDataType::Depth8(d)) => d@.len() as int,
                            Some(crate::sample::SampleDataType::Depth16(d)) => 2 * d@.len() as int,
                            Option::None => 0,
                        }) <= 0xFFFF_FFFF
                },
        ensures
            r matches Ok(out) ==> {
                &&& out@.len() >= 80 + final (self).pattern_order@.len()
                &&& out@.subrange(0, 80) == final (self).header.spec_save()
                &&& out@.subrange(80, 80 + final (self).pattern_order@.len() as int) == final (
                self).pattern_order@
                &&& final (self).header.header_size as int == 20 + final (self).pattern_order@.len()
                &&& out@ == final (self).header.spec_save() + final (self).pattern_order@
                    + spec_pattern_records_save(final (self).pattern@)
                    + spec_instrument_records_save(final (self).instrument@)
            },
            final (self).pattern_order == old(self).pattern_order,
            final (self).pattern@.len() == old(self).pattern@.len(),
            final (self).instrument@.len() == old(self).instrument@.len(),
            forall|i: int|
                0 <= i < final (self).pattern@.len() ==> {
                    let fp = #[trigger] final (self).pattern@[i];
                    &&& fp.pattern == old(self).pattern@[i].pattern
                    &&& fp.header.pattern_header_len == old(self).pattern@[i].header
                        .pattern_header_len
                    &&& fp.header.num_rows == old(self).pattern@[i].header.num_rows
                    &&& fp.header.pattern_data_size as int == XmPattern::spec_rows_save(
                        pattern_view(fp.pattern),
                    ).len()
                },
            forall|i: int|
                0 <= i < final (self).instrument@.len() ==> {
                    let fi = #[trigger] final (self).instrument@[i];
                    &&& fi.instr == old(self).instrument@[i].instr
                    &&& fi.sample@.len() == old(self).instrument@[i].sample@.len()
                    &&& (forall|j: int|
                        0 <= j < fi.sample@.len() ==> (#[trigger] fi.sample@[j]).data == old(
                            self,
                        ).instrument@[i].sample@[j].data)
                    &&& fi.header.num_samples as int == fi.sample@.len()
                    &&& fi.header.instrument_header_len as int == 33
                        + super::xminstrument::spec_instr_block_save(fi.instr).len()
                    &&& (forall|j: int|
                        0 <= j < fi.sample@.len() ==> (#[trigger] fi.sample@[j]).header.length
                            as int == super::xminstrument::spec_payload_len(fi.sample@[j].data))
                },
            r is Ok,
    {
        let po_len = self.pattern_order.len();
        self.header.header_size = 20 + po_len as u32;
        let mut all: Vec<u8> = self.header.save();
        let mut order = vstd::slice::slice_to_vec(self.pattern_order.as_slice());
        all.append(&mut order);
        let ghost prefix = all@;
        let ghost h1 = self.header;
        let npat = self.pattern.len();
        let mut i: usize = 0;
        while i < npat
            invariant
                npat == self.pattern@.len(),
                i <= npat,
                all@.len() >= prefix.len(),
                all@.subrange(0, prefix.len() as int) == prefix,
                all@ == prefix + spec_pattern_records_save(self.pattern@.take(i as int)),
                prefix.len() == 80 + self.pattern_order@.len(),
                prefix.subrange(0, 80) == h1.spec_save(),
                prefix.subrange(80, prefix.len() as int) == self.pattern_order@,
                self.header == h1,
                h1.header_size as int == 20 + self.pattern_order@.len(),
                self.pattern_order == old(self).pattern_order,
                self.instrument == old(self).instrument,
                forall|k: int|
                    0 <= k < self.pattern@.len() ==> XmPattern::spec_rows_save(
                        pattern_view((#[trigger] self.pattern@[k]).pattern),
                    ).len() <= 65535,
                forall|k: int|
                    i <= k < self.pattern@.len() ==> (#[trigger] self.pattern@[k]) == old(
                        self,
                    ).pattern@[k],
                forall|k: int|
                    0 <= k < i ==> {
                        let fp = #[trigger] self.pattern@[k];
                        &&& fp.pattern == old(self).pattern@[k].pattern
                        &&& fp.header.pattern_header_len == old(self).pattern@[k].header
                            .pattern_header_len
                        &&& fp.header.num_rows == old(self).pattern@[k].header.num_rows
                        &&& fp.header.pattern_data_size as int == XmPattern::spec_rows_save(
                            pattern_view(fp.pattern),
                        ).len()
                    },
            decreases npat - i,
        {
            let ghost before = self.pattern@;
            let mut xmp = self.pattern.remove(i);
            let mut b = match xmp.save() {
                Ok(v) => v,
                Err(e) => {
                    return Err(e);
                },
            };
            let ghost bbytes = b@;
            all.append(&mut b);
            self.pattern.insert(i, xmp);
            proof {
                assert(all@.subrange(0, prefix.len() as int) =~= prefix);
                assert(self.pattern@.take(i as int) =~= before.take(i as int));
                assert(self.pattern@.take(i + 1).drop_last() =~= self.pattern@.take(i as int));
                assert(self.pattern@.take(i + 1).last() == self.pattern@[i as int]);
                assert(bbytes == spec_pattern_record_save(self.pattern@[i as int]));
                assert(all@ =~= prefix + spec_pattern_records_save(self.pattern@.take(i + 1)));
                assert forall|k: int|
                    0 <= k < self.pattern@.len() implies XmPattern::spec_rows_save(
                    pattern_view((#[trigger] self.pattern@[k]).pattern),
                ).len() <= 65535 by {}
            }
            i = i + 1;
        }
        proof {
            assert(self.pattern@.take(npat as int) =~= self.pattern@);
        }
        let ghost patterns_fixed = self.pattern@;
        let ninstr = self.instrument.len();
        let mut j: usize = 0;
        while j < ninstr
            invariant
                ninstr == self.instrument@.len(),
                j <= ninstr,
                all@.len() >= prefix.len(),
                all@.subrange(0, prefix.len() as int) == prefix,
                self.pattern@ == patterns_fixed,
                all@ == prefix + spec_pattern_records_save(patterns_fixed)
                    + spec_instrument_records_save(self.instrument@.take(j as int)),
                prefix.len() == 80 + self.pattern_order@.len(),
                prefix.subrange(0, 80) == h1.spec_save(),
                prefix.subrange(80, prefix.len() as int) == self.pattern_order@,
                self.header == h1,
                h1.header_size as int == 20 + self.pattern_order@.len(),
                self.pattern_order == old(self).pattern_order,
                forall|k: int|
                    0 <= k < self.instrument@.len() ==> {
                        &&& (#[trigger] self.instrument@[k]).sample@.len() <= 65535
                        &&& ((self.instrument@[k]).instr
                            matches super::xminstrument::XmInstrumentType::Classic(xd) ==> xd.wf())
                        &&& forall|t: int|
                            0 <= t < self.instrument@[k].sample@.len() ==> (match (
                            #[trigger] self.instrument@[k].sample@[t]).data {
                                Some(crate::sample::SampleDataType::Depth8(d)) => d@.len() as int,
                                Some(crate::sample::SampleDataType::Depth16(d)) => 2 * d@.len()
                                    as int,
                                Option::None => 0,
                            }) <= 0xFFFF_FFFF
                    },
                forall|k: int|
                    j <= k < self.instrument@.len() ==> (#[trigger] self.instrument@[k]) == old(
                        self,
                    ).instrument@[k],
                forall|k: int|
                    0 <= k < j ==> {
                        let fi = #[trigger] self.instrument@[k];
                        &&& fi.instr == old(self).instrument@[k].instr
                        &&& fi.sample@.len() == old(self).instrument@[k].sample@.len()
                        &&& (forall|t: int|
                            0 <= t < fi.sample@.len() ==> (#[trigger] fi.sample@[t]).data == old(
                                self,
                            ).instrument@[k].sample@[t].data)
                        &&& fi.header.num_samples as int == fi.sample@.len()
                        &&& fi.header.instrument_header_len as int == 33
                            + super::xminstrument::spec_instr_block_save(fi.instr).len()
                        &&& (forall|t: int|
                            0 <= t < fi.sample@.len() ==> (#[trigger] fi.sample@[t]).header.length
                                as int == super::xminstrument::spec_payload_len(
                                fi.sample@[t].data,
                            ))
                    },
            decreases ninstr - j,
        {
            let ghost before = self.instrument@;
            let mut xmi = self.instrument.remove(j);
            let mut b = match xmi.save() {
                Ok(v) => v,
                Err(e) => {
                    return Err(e);
                },
            };
            let ghost bbytes = b@;
            all.append(&mut b);
            self.instrument.insert(j, xmi);
            proof {
                assert(all@.subrange(0, prefix.len() as int) =~= prefix);
                assert(self.instrument@.take(j as int) =~= before.take(j as int));
                assert(self.instrument@.take(j + 1).drop_last() =~= self.instrument@.take(
                    j as int,
                ));
                assert(self.instrument@.take(j + 1).last() == self.instrument@[j as int]);
                assert(bbytes == spec_instrument_record_save(self.instrument@[j as int]));
                assert(all@ =~= prefix + spec_pattern_records_save(patterns_fixed)
                    + spec_instrument_records_save(self.instrument@.take(j + 1)));
                assert forall|k: int|
                    0 <= k < self.instrument@.len() implies {
                    &&& (#[trigger] self.instrument@[k]).sample@.len() <= 65535
                    &&& ((self.instrument@[k]).instr
                        matches super::xminstrument::XmInstrumentType::Classic(xd) ==> xd.wf())
                    &&& forall|t: int|
                        0 <= t < self.instrument@[k].sample@.len() ==> (match (
                        #[trigger] self.instrument@[k].sample@[t]).data {
                            Some(crate::sample::SampleDataType::Depth8(d)) => d@.len() as int,
                            Some(crate::sample::SampleDataType::Depth16(d)) => 2 * d@.len() as int,
                            Option::None => 0,
                        }) <= 0xFFFF_FFFF
                } by {}
            }
            j = j + 1;
        }
        proof {
            assert(all@.subrange(0, 80) =~= prefix.subrange(0, 80));
            assert(all@.subrange(80, 80 + final (self).pattern_order@.len() as int)
                =~= prefix.subrange(80, prefix.len() as int));
            assert(self.instrument@.take(ninstr as int) =~= self.instrument@);
            assert(prefix =~= self.header.spec_save() + self.pattern_order@);
            assert(all@ =~= self.header.spec_save() + self.pattern_order@
                + spec_pattern_records_save(self.pattern@) + spec_instrument_records_save(
                self.instrument@,
            ));
        }
        Ok(all)
    }
}

} // verus!
