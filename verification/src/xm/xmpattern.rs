//! One pattern of an XM file: a 9-byte header followed by a packed cell
//! stream.

use vstd::prelude::*;

use crate::cursor::push_u16_le;
use crate::cursor::push_u32_le;
use crate::cursor::read_u16_le;
use crate::cursor::read_u32_le;
use crate::cursor::spec_u16_le;
use crate::cursor::spec_u16_le_bytes;
use crate::cursor::spec_u32_le;
use crate::cursor::spec_u32_le_bytes;
use crate::error::CodecError;
use crate::module::Module;
use crate::module::pattern_view;
use crate::patternslot::PatternSlot;

use super::xmpatternslot::XmPatternSlot;
use super::xmpatternslot::spec_slot_parse;
use super::xmpatternslot::spec_slot_save;

verus! {

/// The fixed header in front of a pattern's packed cell data.
#[derive(Copy, Clone, Debug, PartialEq, Eq, Structural)]
pub struct XmPatternHeader {
    /// Byte length of this header on disk, normally 9.
    pub pattern_header_len: u32,
    /// Always 0: the uncompressed marker.
    pub packing_type: u8,
    /// Declared number of rows.
    pub num_rows: u16,
    /// Byte length of the packed cell stream that follows.
    pub pattern_data_size: u16,
}

impl Default for XmPatternHeader {
    fn default() -> (r: Self)
        ensures
            r == XmPatternHeader::spec_default(),
    {
        XmPatternHeader { pattern_header_len: 9, packing_type: 0, num_rows: 0, pattern_data_size: 0 }
    }
}

/// The bytes a pattern header writes.
pub open spec fn spec_pattern_header_save(h: XmPatternHeader) -> Seq<u8> {
    spec_u32_le_bytes(h.pattern_header_len) + seq![h.packing_type] + spec_u16_le_bytes(h.num_rows)
        + spec_u16_le_bytes(h.pattern_data_size)
}

impl XmPatternHeader {
    /// The default header: 9 bytes long, no rows, no data.
    pub open spec fn spec_default() -> XmPatternHeader {
        XmPatternHeader { pattern_header_len: 9, packing_type: 0, num_rows: 0, pattern_data_size: 0 }
    }

    /// Read a pattern header at `pos` and step over its declared length.
    pub fn load(data: &[u8], pos: usize) -> (r: Result<(XmPatternHeader, usize), CodecError>)
        ensures
            r matches Ok((h, p)) ==> {
                &&& pos + 9 <= data@.len()
                &&& h.pattern_header_len as int == spec_u32_le(data@, pos as int)
                &&& h.packing_type == data@[pos + 4]
                &&& h.num_rows as int == spec_u16_le(data@, pos + 5)
                &&& h.pattern_data_size as int == spec_u16_le(data@, pos + 7)
                &&& p as int == pos + h.pattern_header_len as int
                &&& p <= data@.len()
            },
            r is Err <==> (pos + 9 > data@.len() || pos + spec_u32_le(data@, pos as int) > data@
                .len()),
    {
        if pos > data.len() || data.len() - pos < 9 {
            return Err(CodecError::Truncated);
        }
        let hl = read_u32_le(data, pos);
        if hl as usize > data.len() || pos > data.len() - hl as usize {
            return Err(CodecError::Truncated);
        }
        let h = XmPatternHeader {
            pattern_header_len: hl,
            packing_type: data[pos + 4],
            num_rows: read_u16_le(data, pos + 5),
            pattern_data_size: read_u16_le(data, pos + 7),
        };
        Ok((h, pos + hl as usize))
    }

    /// Write this header.
    pub fn save(&self) -> (r: Vec<u8>)
        ensures
            r@ == spec_pattern_header_save(*self),
    {
        let mut out: Vec<u8> = Vec::new();
        push_u32_le(&mut out, self.pattern_header_len);
        out.push(self.packing_type);
        push_u16_le(&mut out, self.num_rows);
        push_u16_le(&mut out, self.pattern_data_size);
        proof {
            assert(out@ =~= spec_pattern_header_save(*self));
        }
        out
    }
}

/// Parse the whole packed cell stream from `pos` to the end of the buffer.
pub open spec fn spec_slots_parse(b: Seq<u8>, pos: int) -> Option<Seq<PatternSlot>>
    decreases b.len() - pos,
{
    if pos < 0 || pos > b.len() {
        None
    } else if pos == b.len() {
        Some(seq![])
    } else {
        match spec_slot_parse(b, pos) {
            None => None,
            Some((s, p)) => if p <= pos || p > b.len() {
                None
            } else {
                match spec_slots_parse(b, p) {
                    None => None,
                    Some(rest) => Some(seq![s] + rest),
                }
            },
        }
    }
}

/// A row of `ch` empty cells.
pub open spec fn spec_empty_row(ch: int) -> Seq<PatternSlot> {
    Seq::new(
        if ch >= 0 {
            ch as nat
        } else {
            0
        },
        |i: int| PatternSlot::spec_default(),
    )
}

/// Cells grouped into rows of `ch` channels; a trailing partial row is
/// dropped, as historical loaders did.
pub open spec fn spec_group(slots: Seq<PatternSlot>, ch: int) -> Seq<Seq<PatternSlot>> {
    if ch <= 0 {
        seq![]
    } else {
        Seq::new(
            (slots.len() as int / ch) as nat,
            |r: int| slots.subrange(r * ch, r * ch + ch),
        )
    }
}

/// Rows padded with empty rows up to the declared row count: corrupt files
/// that decode short are zero-filled, never rejected.
pub open spec fn spec_pad_rows(rows: Seq<Seq<PatternSlot>>, ch: int, num: int) -> Seq<
    Seq<PatternSlot>,
> {
    if rows.len() >= num {
        rows
    } else {
        rows + Seq::new((num - rows.len()) as nat, |i: int| spec_empty_row(ch))
    }
}

/// Where the pattern record at `pos` ends, or `None` when loading it
/// fails: the 9 header bytes, the declared header length and the declared
/// data size must all lie inside the buffer, and the packed cell stream
/// must decode.
pub open spec fn spec_pattern_parse_end(b: Seq<u8>, pos: int) -> Option<int> {
    let hl = spec_u32_le(b, pos);
    let pds = spec_u16_le(b, pos + 7);
    if pos + 9 > b.len() || pos + hl > b.len() || pos + hl + pds > b.len() {
        None
    } else if spec_slots_parse(b.subrange(pos + hl, pos + hl + pds), 0) is None {
        None
    } else {
        Some(pos + hl + pds)
    }
}

/// How one loaded pattern record relates to the bytes at `pos`: the
/// header fields read little-endian, and the rows decoded from the packed
/// cell stream behind the header, grouped into `ch` channels and padded
/// to the declared row count.
pub open spec fn spec_pattern_loads(b: Seq<u8>, pos: int, ch: int, xp: XmPattern) -> bool {
    &&& pos + 9 <= b.len()
    &&& xp.header.pattern_header_len as int == spec_u32_le(b, pos)
    &&& xp.header.num_rows as int == spec_u16_le(b, pos + 5)
    &&& xp.header.pattern_data_size as int == spec_u16_le(b, pos + 7)
    &&& (spec_slots_parse(
        b.subrange(
            pos + xp.header.pattern_header_len,
            pos + xp.header.pattern_header_len + xp.header.pattern_data_size,
        ),
        0,
    ) matches Some(slots) && pattern_view(xp.pattern) == spec_pad_rows(
        spec_group(slots, ch),
        ch,
        xp.header.num_rows as int,
    ))
}

/// One XM pattern: its header and its decoded rows.
#[derive(Clone, Debug, PartialEq)]
pub struct XmPattern {
    /// The on-disk header.
    pub header: XmPatternHeader,
    /// The decoded rows, one vector of cells per row.
    pub pattern: Vec<Vec<XmPatternSlot>>,
}

impl XmPattern {
    /// A row of `number_of_channels` empty cells.
    pub fn get_empty_line(number_of_channels: usize) -> (r: Vec<XmPatternSlot>)
        ensures
            r@ =~= spec_empty_row(number_of_channels as int),
    {
        let mut row: Vec<XmPatternSlot> = Vec::new();
        let mut i: usize = 0;
        while i < number_of_channels
            invariant
                i <= number_of_channels,
                row@ =~= spec_empty_row(i as int),
            decreases number_of_channels - i,
        {
            row.push(PatternSlot::default());
            proof {
                assert(row@ =~= spec_empty_row(i + 1));
            }
            i = i + 1;
        }
        row
    }

    /// Decode a packed cell stream into rows of `number_of_channels` cells,
    /// zero-filling up to `number_of_rows` when the stream decodes short.
    pub fn get_slots(data: &[u8], number_of_channels: usize, number_of_rows: usize) -> (r: Result<
        Vec<Vec<XmPatternSlot>>,
        CodecError,
    >)
        ensures
            r matches Ok(rows) ==> spec_slots_parse(data@, 0) matches Some(slots) && pattern_view(
                rows,
            ) =~= spec_pad_rows(
                spec_group(slots, number_of_channels as int),
                number_of_channels as int,
                number_of_rows as int,
            ),
            r is Err <==> spec_slots_parse(data@, 0) is None,
    {
        let n = data.len();
        let mut slots: Vec<XmPatternSlot> = Vec::new();
        let mut cur: usize = 0;
        while cur < n
            invariant
                n == data@.len(),
                cur <= n,
                spec_slots_parse(data@, cur as int) matches Some(rest) ==> spec_slots_parse(
                    data@,
                    0,
                ) matches Some(all) && all == slots@ + rest,
                spec_slots_parse(data@, cur as int) is None ==> spec_slots_parse(data@, 0) is None,
            decreases n - cur,
        {
            match XmPatternSlot::load(data, cur) {
                Ok((s, p)) => {
                    slots.push(s);
                    proof {
                        if spec_slots_parse(data@, p as int) is Some {
                            let rest2 = spec_slots_parse(data@, p as int)->Some_0;
                            assert(spec_slots_parse(data@, cur as int) == Some(seq![s] + rest2));
                            assert(slots@ + rest2 =~= slots@.drop_last() + (seq![s] + rest2));
                        }
                    }
                    cur = p;
                },
                Err(e) => {
                    proof {
                        assert(spec_slots_parse(data@, cur as int) is None);
                    }
                    return Err(e);
                },
            }
        }
        proof {
            assert(spec_slots_parse(data@, cur as int) == Some(Seq::<PatternSlot>::empty()));
            assert(spec_slots_parse(data@, 0) matches Some(all) && all == slots@ + Seq::<
                PatternSlot,
            >::empty());
            assert(slots@ + Seq::<PatternSlot>::empty() =~= slots@);
        }
        let all = slots;
        let mut lines: Vec<Vec<XmPatternSlot>> = Vec::new();
        if number_of_channels > 0 {
            let nrows = all.len() / number_of_channels;
            proof {
                lemma_div_mul_le(all@.len() as int, number_of_channels as int);
            }
            let mut r: usize = 0;
            while r < nrows
                invariant
                    number_of_channels > 0,
                    all@.len() <= usize::MAX,
                    nrows == all@.len() as int / number_of_channels as int,
                    nrows * number_of_channels <= all@.len(),
                    r <= nrows,
                    lines@.len() == r,
                    forall|k: int|
                        0 <= k < r ==> (#[trigger] lines@[k])@ =~= all@.subrange(
                            k * number_of_channels,
                            k * number_of_channels + number_of_channels,
                        ),
                decreases nrows - r,
            {
                let mut row: Vec<XmPatternSlot> = Vec::new();
                let mut c: usize = 0;
                proof {
                    assert((r + 1) * number_of_channels <= nrows * number_of_channels) by (
                    nonlinear_arith)
                        requires
                            r + 1 <= nrows,
                            number_of_channels > 0,
                    ;
                    assert(r * number_of_channels + number_of_channels == (r + 1)
                        * number_of_channels) by (nonlinear_arith);
                }
                while c < number_of_channels
                    invariant
                        c <= number_of_channels,
                        all@.len() <= usize::MAX,
                        r * number_of_channels + number_of_channels <= all@.len(),
                        r * number_of_channels >= 0,
                        row@ =~= all@.subrange(
                            r * number_of_channels,
                            r * number_of_channels + c,
                        ),
                    decreases number_of_channels - c,
                {
                    row.push(all[r * number_of_channels + c]);
                    proof {
                        assert(row@ =~= all@.subrange(
                            r * number_of_channels,
                            r * number_of_channels + c + 1,
                        ));
                    }
                    c = c + 1;
                }
                lines.push(row);
                r = r + 1;
            }
        }
        proof {
            assert(pattern_view(lines) =~= spec_pad_rows(
                spec_group(all@, number_of_channels as int),
                number_of_channels as int,
                lines@.len() as int,
            ));
        }
        while lines.len() < number_of_rows
            invariant
                pattern_view(lines) == spec_pad_rows(
                    spec_group(all@, number_of_channels as int),
                    number_of_channels as int,
                    lines@.len() as int,
                ),
                spec_group(all@, number_of_channels as int).len() <= lines@.len(),
                lines@.len() <= number_of_rows || spec_group(all@, number_of_channels as int).len()
                    == lines@.len(),
            decreases number_of_rows - lines@.len(),
        {
            let ghost g = spec_group(all@, number_of_channels as int);
            let ghost ch = number_of_channels as int;
            let ghost pv0 = pattern_view(lines);
            let ghost len0 = lines@.len() as int;
            let row = Self::get_empty_line(number_of_channels);
            lines.push(row);
            proof {
                assert(pattern_view(lines) =~= pv0.push(spec_empty_row(ch)));
                assert(spec_pad_rows(g, ch, len0 + 1) =~= spec_pad_rows(g, ch, len0).push(
                    spec_empty_row(ch),
                ));
            }
        }
        proof {
            let g = spec_group(all@, number_of_channels as int);
            let ch = number_of_channels as int;
            if lines@.len() > number_of_rows {
                assert(g.len() == lines@.len());
                assert(spec_pad_rows(g, ch, lines@.len() as int) == g);
                assert(spec_pad_rows(g, ch, number_of_rows as int) == g);
            }
            assert(pattern_view(lines) == spec_pad_rows(
                g,
                ch,
                number_of_rows as int,
            ));
        }
        Ok(lines)
    }

    /// Load one pattern at `pos`: its header, then its packed cell stream.
    pub fn load(data: &[u8], pos: usize, number_of_channels: u16) -> (r: Result<
        (XmPattern, usize),
        CodecError,
    >)
        ensures
            r matches Ok((xp, p)) ==> {
                &&& pos + 9 <= data@.len()
                &&& xp.header.pattern_header_len as int == spec_u32_le(data@, pos as int)
                &&& xp.header.num_rows as int == spec_u16_le(data@, pos + 5)
                &&& xp.header.pattern_data_size as int == spec_u16_le(data@, pos + 7)
                &&& p as int == pos + xp.header.pattern_header_len + xp.header.pattern_data_size
                &&& p <= data@.len()
                &&& spec_slots_parse(
                    data@.subrange(
                        pos + xp.header.pattern_header_len as int,
                        pos + xp.header.pattern_header_len + xp.header.pattern_data_size,
                    ),
                    0,
                ) matches Some(slots) && pattern_view(xp.pattern) =~= spec_pad_rows(
                    spec_group(slots, number_of_channels as int),
                    number_of_channels as int,
                    xp.header.num_rows as int,
                )
            },
            r matches Ok((xp, p)) ==> Some(p as int) == spec_pattern_parse_end(data@, pos as int)
                && spec_pattern_loads(data@, pos as int, number_of_channels as int, xp),
            r is Err <==> spec_pattern_parse_end(data@, pos as int) is None,
    {
        let (header, p1) = match XmPatternHeader::load(data, pos) {
            Ok(hp) => hp,
            Err(e) => {
                return Err(e);
            },
        };
        if data.len() - p1 < header.pattern_data_size as usize {
            return Err(CodecError::Truncated);
        }
        let seg: &[u8] = &data[p1..p1 + header.pattern_data_size as usize];
        proof {
            assert(seg@ == data@.subrange(
                pos + spec_u32_le(data@, pos as int),
                pos + spec_u32_le(data@, pos as int) + spec_u16_le(data@, pos + 7),
            ));
        }
        let lines = match Self::get_slots(
            seg,
            number_of_channels as usize,
            header.num_rows as usize,
        ) {
            Ok(l) => l,
            Err(e) => {
                return Err(e);
            },
        };
        Ok((XmPattern { header, pattern: lines }, p1 + header.pattern_data_size as usize))
    }

    /// Build the pattern records of every pattern of a module, headers set
    /// for the raw cell encoding.
    pub fn from_module(module: &Module) -> (r: Vec<XmPattern>)
        requires
            forall|i: int|
                0 <= i < module.pattern@.len() ==> (#[trigger] module.pattern@[i])@.len() <= 4095
                    && (module.pattern@[i]@.len() == 0 || module.pattern@[i]@[0]@.len() <= 256),
        ensures
            r@.len() == module.pattern@.len(),
            forall|i: int|
                0 <= i < r@.len() ==> {
                    &&& (#[trigger] r@[i]).header.pattern_header_len == 9
                    &&& r@[i].header.num_rows as int == module.pattern@[i]@.len()
                    &&& pattern_view(r@[i].pattern) =~= pattern_view(module.pattern@[i])
                },
    {
        let mut all: Vec<XmPattern> = Vec::new();
        let mut i: usize = 0;
        let n = module.pattern.len();
        while i < n
            invariant
                n == module.pattern@.len(),
                i <= n,
                forall|k: int|
                    0 <= k < n ==> (#[trigger] module.pattern@[k])@.len() <= 4095 && (
                    module.pattern@[k]@.len() == 0 || module.pattern@[k]@[0]@.len() <= 256),
                all@.len() == i,
                forall|k: int|
                    0 <= k < i ==> {
                        &&& (#[trigger] all@[k]).header.pattern_header_len == 9
                        &&& all@[k].header.num_rows as int == module.pattern@[k]@.len()
                        &&& pattern_view(all@[k].pattern) =~= pattern_view(module.pattern@[k])
                    },
            decreases n - i,
        {
            let p: &Vec<Vec<PatternSlot>> = &module.pattern[i];
            let nrows = p.len();
            assert(module.pattern@[i as int]@.len() <= 4095);
            let ch = if nrows > 0 {
                p[0].len()
            } else {
                0
            };
            assert(nrows <= 4095 && ch <= 256);
            proof {
                assert(nrows * ch <= 4095 * 256) by (nonlinear_arith)
                    requires
                        0 <= nrows <= 4095,
                        0 <= ch <= 256,
                ;
            }
            let mut header = XmPatternHeader::default();
            header.num_rows = nrows as u16;
            header.pattern_data_size = ((nrows * ch) as u16).wrapping_mul(5);
            let mut xp = XmPattern { header, pattern: Vec::new() };
            let mut k: usize = 0;
            while k < nrows
                invariant
                    nrows == p@.len(),
                    k <= nrows,
                    xp.pattern@.len() == k,
                    forall|j: int| 0 <= j < k ==> (#[trigger] xp.pattern@[j])@ =~= p@[j]@,
                    xp.header == header,
                decreases nrows - k,
            {
                let row: Vec<PatternSlot> = p[k].clone();
                assert(row@ =~= p@[k as int]@);
                xp.pattern.push(row);
                k = k + 1;
            }
            proof {
                assert(pattern_view(xp.pattern) =~= pattern_view(module.pattern@[i as int]));
            }
            all.push(xp);
            i = i + 1;
        }
        all
    }

    /// The packed bytes of one row of cells.
    pub open spec fn spec_cells_save(row: Seq<PatternSlot>) -> Seq<u8>
        decreases row.len(),
    {
        if row.len() == 0 {
            Seq::<u8>::empty()
        } else {
            Self::spec_cells_save(row.drop_last()) + spec_slot_save(row.last())
        }
    }

    /// The packed bytes of a whole pattern's rows.
    pub open spec fn spec_rows_save(rows: Seq<Seq<PatternSlot>>) -> Seq<u8>
        decreases rows.len(),
    {
        if rows.len() == 0 {
            Seq::<u8>::empty()
        } else {
            Self::spec_rows_save(rows.drop_last()) + Self::spec_cells_save(rows.last())
        }
    }

    /// Write this pattern: its cells in the shortest packed encoding, with
    /// the header's data size set to the bytes actually written.
    pub fn save(&mut self) -> (r: Result<Vec<u8>, CodecError>)
        requires
            Self::spec_rows_save(pattern_view(old(self).pattern)).len() <= 65535,
        ensures
            final (self).pattern == old(self).pattern,
            final (self).header.pattern_header_len == old(self).header.pattern_header_len,
            final (self).header.packing_type == old(self).header.packing_type,
            final (self).header.num_rows == old(self).header.num_rows,
            final (self).header.pattern_data_size as int == Self::spec_rows_save(
                pattern_view(old(self).pattern),
            ).len(),
            r matches Ok(out) ==> out@ == spec_pattern_header_save(final (self).header)
                + Self::spec_rows_save(pattern_view(old(self).pattern)),
            r is Ok,
    {
        let mut p_output: Vec<u8> = Vec::new();
        let nrows = self.pattern.len();
        let mut i: usize = 0;
        while i < nrows
            invariant
                nrows == self.pattern@.len(),
                i <= nrows,
                self == old(self),
                Self::spec_rows_save(pattern_view(self.pattern)).len() <= 65535,
                p_output@ =~= Self::spec_rows_save(pattern_view(self.pattern).take(i as int)),
            decreases nrows - i,
        {
            let row: &Vec<PatternSlot> = &self.pattern[i];
            let nc = row.len();
            let mut c: usize = 0;
            while c < nc
                invariant
                    nc == row@.len(),
                    c <= nc,
                    p_output@ =~= Self::spec_rows_save(pattern_view(self.pattern).take(i as int))
                        + Self::spec_cells_save(row@.take(c as int)),
                decreases nc - c,
            {
                let mut b = row[c].save();
                p_output.append(&mut b);
                proof {
                    assert(row@.take(c + 1).drop_last() =~= row@.take(c as int));
                    assert(row@.take(c + 1).last() == row@[c as int]);
                }
                c = c + 1;
            }
            proof {
                assert(row@.take(nc as int) =~= row@);
                assert(pattern_view(self.pattern).take(i + 1).drop_last() =~= pattern_view(
                    self.pattern,
                ).take(i as int));
                assert(pattern_view(self.pattern).take(i + 1).last() =~= row@);
            }
            i = i + 1;
        }
        proof {
            assert(pattern_view(self.pattern).take(nrows as int) =~= pattern_view(self.pattern));
            lemma_rows_save_prefix(pattern_view(self.pattern));
        }
        self.header.pattern_data_size = p_output.len() as u16;
        let mut output = self.header.save();
        output.append(&mut p_output);
        Ok(output)
    }
}

/// The rows of a pattern laid out as one flat cell sequence, row after
/// row.
pub open spec fn spec_flatten_rows(rows: Seq<Seq<PatternSlot>>) -> Seq<PatternSlot>
    decreases rows.len(),
{
    if rows.len() == 0 {
        Seq::<PatternSlot>::empty()
    } else {
        spec_flatten_rows(rows.drop_last()) + rows.last()
    }
}

/// Saving a concatenation of cells saves each part in order.
proof fn lemma_cells_save_append(a: Seq<PatternSlot>, b: Seq<PatternSlot>)
    ensures
        XmPattern::spec_cells_save(a + b) == XmPattern::spec_cells_save(a)
            + XmPattern::spec_cells_save(b),
    decreases b.len(),
{
    if b.len() == 0 {
        assert(a + b =~= a);
        assert(XmPattern::spec_cells_save(a) + XmPattern::spec_cells_save(b)
            =~= XmPattern::spec_cells_save(a));
    } else {
        lemma_cells_save_append(a, b.drop_last());
        assert((a + b).drop_last() =~= a + b.drop_last());
        assert((a + b).last() == b.last());
        assert(XmPattern::spec_cells_save(a + b) =~= XmPattern::spec_cells_save(a)
            + XmPattern::spec_cells_save(b));
    }
}

/// The saved bytes of a nonempty cell sequence start with the first cell.
proof fn lemma_cells_save_first(cells: Seq<PatternSlot>)
    requires
        cells.len() > 0,
    ensures
        XmPattern::spec_cells_save(cells) == spec_slot_save(cells[0]) + XmPattern::spec_cells_save(
            cells.drop_first(),
        ),
{
    let head = seq![cells[0]];
    assert(head + cells.drop_first() =~= cells);
    lemma_cells_save_append(head, cells.drop_first());
    assert(head.drop_last() =~= Seq::<PatternSlot>::empty());
    assert(head.drop_last().len() == 0);
    assert(XmPattern::spec_cells_save(head.drop_last()) == Seq::<u8>::empty());
    assert(head.last() == cells[0]);
    assert(XmPattern::spec_cells_save(head) == XmPattern::spec_cells_save(head.drop_last())
        + spec_slot_save(head.last()));
    assert(XmPattern::spec_cells_save(head) =~= spec_slot_save(cells[0]));
}

/// Saving rows one after another saves their flattened cells.
proof fn lemma_rows_save_flatten(rows: Seq<Seq<PatternSlot>>)
    ensures
        XmPattern::spec_rows_save(rows) == XmPattern::spec_cells_save(spec_flatten_rows(rows)),
    decreases rows.len(),
{
    if rows.len() > 0 {
        lemma_rows_save_flatten(rows.drop_last());
        lemma_cells_save_append(spec_flatten_rows(rows.drop_last()), rows.last());
    }
}

/// Flattened rectangular rows have one cell per row and channel, in row
/// order.
proof fn lemma_flatten_rect(rows: Seq<Seq<PatternSlot>>, ch: int)
    requires
        ch > 0,
        forall|i: int| 0 <= i < rows.len() ==> (#[trigger] rows[i]).len() == ch,
    ensures
        spec_flatten_rows(rows).len() == rows.len() * ch,
        forall|i: int, c: int|
            0 <= i < rows.len() && 0 <= c < ch ==> spec_flatten_rows(rows)[i * ch + c]
                == (#[trigger] rows[i][c]),
    decreases rows.len(),
{
    if rows.len() == 0 {
    } else {
        let front = rows.drop_last();
        lemma_flatten_rect(front, ch);
        assert(rows.last().len() == ch);
        assert(spec_flatten_rows(rows).len() == front.len() * ch + ch);
        assert(front.len() * ch + ch == rows.len() * ch) by (nonlinear_arith)
            requires
                front.len() == rows.len() - 1,
        ;
        assert forall|i: int, c: int|
            0 <= i < rows.len() && 0 <= c < ch implies spec_flatten_rows(rows)[i * ch + c] == (
        #[trigger] rows[i][c]) by {
            assert(0 <= i * ch + c) by (nonlinear_arith)
                requires
                    i >= 0,
                    c >= 0,
                    ch > 0,
            ;
            if i < rows.len() - 1 {
                assert(i * ch + c < front.len() * ch) by (nonlinear_arith)
                    requires
                        i < front.len(),
                        0 <= c < ch,
                ;
                assert(spec_flatten_rows(rows)[i * ch + c] == spec_flatten_rows(front)[i * ch
                    + c]);
                assert(front[i] == rows[i]);
            } else {
                assert(i == rows.len() - 1);
                assert(i * ch == front.len() * ch) by (nonlinear_arith)
                    requires
                        i == front.len(),
                ;
                assert(spec_flatten_rows(rows)[i * ch + c] == rows.last()[c]);
            }
        }
    }
}

/// Parsing a buffer whose remainder holds the saved bytes of a cell
/// sequence yields exactly that sequence.
proof fn lemma_cells_stream_parse(cells: Seq<PatternSlot>, b: Seq<u8>, pos: int)
    requires
        0 <= pos <= b.len(),
        b.subrange(pos, b.len() as int) == XmPattern::spec_cells_save(cells),
    ensures
        spec_slots_parse(b, pos) == Some(cells),
    decreases cells.len(),
{
    if cells.len() == 0 {
        assert(b.len() - pos == 0);
        assert(spec_slots_parse(b, pos) == Some(Seq::<PatternSlot>::empty()));
        assert(Seq::<PatternSlot>::empty() =~= cells);
    } else {
        lemma_cells_save_first(cells);
        let sv = spec_slot_save(cells[0]);
        let rest_sv = XmPattern::spec_cells_save(cells.drop_first());
        assert(b.subrange(pos, b.len() as int) == sv + rest_sv);
        assert((sv + rest_sv).len() == sv.len() + rest_sv.len());
        assert(b.subrange(pos, b.len() as int).len() == b.len() - pos);
        assert(b.len() - pos == sv.len() + rest_sv.len());
        assert(b.subrange(pos, pos + sv.len() as int) =~= sv) by {
            assert forall|k: int| 0 <= k < sv.len() implies b.subrange(
                pos,
                pos + sv.len() as int,
            )[k] == sv[k] by {
                assert(b.subrange(pos, b.len() as int)[k] == (sv + rest_sv)[k]);
            }
        }
        super::xmpatternslot::lemma_slot_roundtrip(cells[0], b, pos);
        let p2 = pos + sv.len() as int;
        assert(b.subrange(p2, b.len() as int) =~= rest_sv) by {
            assert forall|k: int| 0 <= k < rest_sv.len() implies b.subrange(
                p2,
                b.len() as int,
            )[k] == rest_sv[k] by {
                assert(b.subrange(pos, b.len() as int)[sv.len() + k] == (sv + rest_sv)[sv.len()
                    + k]);
            }
        }
        lemma_cells_stream_parse(cells.drop_first(), b, p2);
        assert(sv.len() >= 1);
        assert(spec_slots_parse(b, pos) == Some(seq![cells[0]] + cells.drop_first()));
        assert(seq![cells[0]] + cells.drop_first() =~= cells);
    }
}

/// A buffer holding exactly the saved rows of a pattern parses as a
/// packed cell stream, whatever shape the rows have.
pub proof fn lemma_rows_stream_parse(rows: Seq<Seq<PatternSlot>>)
    ensures
        spec_slots_parse(XmPattern::spec_rows_save(rows), 0) is Some,
{
    lemma_rows_save_flatten(rows);
    let sv = XmPattern::spec_rows_save(rows);
    assert(sv.subrange(0, sv.len() as int) =~= sv);
    lemma_cells_stream_parse(spec_flatten_rows(rows), sv, 0);
}

/// The XM pattern payload codec is lossless: saving the cells of a
/// rectangular pattern and parsing the bytes back restores every row
/// exactly, including the grouping into channels.
pub proof fn lemma_pattern_payload_roundtrip(rows: Seq<Seq<PatternSlot>>, ch: int)
    requires
        ch > 0,
        forall|i: int| 0 <= i < rows.len() ==> (#[trigger] rows[i]).len() == ch,
    ensures
        spec_slots_parse(XmPattern::spec_rows_save(rows), 0) matches Some(slots) && spec_pad_rows(
            spec_group(slots, ch),
            ch,
            rows.len() as int,
        ) == rows,
{
    let flat = spec_flatten_rows(rows);
    lemma_rows_save_flatten(rows);
    lemma_flatten_rect(rows, ch);
    let sv0 = XmPattern::spec_rows_save(rows);
    assert(sv0.subrange(0, sv0.len() as int) =~= sv0);
    lemma_cells_stream_parse(flat, XmPattern::spec_rows_save(rows), 0);
    assert((rows.len() * ch) as int / ch == rows.len()) by (nonlinear_arith)
        requires
            ch > 0,
        ;
    let g = spec_group(flat, ch);
    assert(g.len() == rows.len());
    assert forall|i: int| 0 <= i < rows.len() implies g[i] == rows[i] by {
        assert(0 <= i * ch && i * ch + ch <= flat.len()) by (nonlinear_arith)
            requires
                0 <= i < rows.len(),
                ch > 0,
                flat.len() == rows.len() * ch,
        ;
        assert(g[i] =~= rows[i]) by {
            assert forall|c: int| 0 <= c < ch implies flat.subrange(i * ch, i * ch + ch)[c]
                == rows[i][c] by {
                assert(flat[i * ch + c] == rows[i][c]);
            }
        }
    }
    assert(g =~= rows);
    assert(spec_pad_rows(g, ch, rows.len() as int) == rows);
}

/// A written pattern header reads back field for field wherever it
/// stands in a buffer.
pub proof fn lemma_pattern_header_roundtrip(h: XmPatternHeader, b: Seq<u8>, pos: int)
    requires
        0 <= pos,
        pos + 9 <= b.len(),
        b.subrange(pos, pos + 9) == spec_pattern_header_save(h),
    ensures
        spec_u32_le(b, pos) == h.pattern_header_len as int,
        b[pos + 4] == h.packing_type,
        spec_u16_le(b, pos + 5) == h.num_rows as int,
        spec_u16_le(b, pos + 7) == h.pattern_data_size as int,
{
    let sv = spec_pattern_header_save(h);
    assert(b.subrange(pos, pos + 4) =~= spec_u32_le_bytes(h.pattern_header_len)) by {
        assert forall|k: int| 0 <= k < 4 implies b.subrange(pos, pos + 4)[k] == spec_u32_le_bytes(
            h.pattern_header_len,
        )[k] by {
            assert(b.subrange(pos, pos + 9)[k] == sv[k]);
        }
    }
    crate::cursor::lemma_u32_le_roundtrip(h.pattern_header_len, b, pos);
    assert(b[pos + 4] == sv[4]);
    assert(b.subrange(pos + 5, pos + 7) =~= spec_u16_le_bytes(h.num_rows)) by {
        assert forall|k: int| 0 <= k < 2 implies b.subrange(pos + 5, pos + 7)[k]
            == spec_u16_le_bytes(h.num_rows)[k] by {
            assert(b.subrange(pos, pos + 9)[5 + k] == sv[5 + k]);
        }
    }
    crate::cursor::lemma_u16_le_roundtrip(h.num_rows, b, pos + 5);
    assert(b.subrange(pos + 7, pos + 9) =~= spec_u16_le_bytes(h.pattern_data_size)) by {
        assert forall|k: int| 0 <= k < 2 implies b.subrange(pos + 7, pos + 9)[k]
            == spec_u16_le_bytes(h.pattern_data_size)[k] by {
            assert(b.subrange(pos, pos + 9)[7 + k] == sv[7 + k]);
        }
    }
    crate::cursor::lemma_u16_le_roundtrip(h.pattern_data_size, b, pos + 7);
}

/// Monotonicity helper: the grouped row count never exceeds what the cells
/// provide.
proof fn lemma_div_mul_le(n: int, ch: int)
    ensures
        ch > 0 ==> (n / ch) * ch <= n,
{
    if ch > 0 {
        assert((n / ch) * ch <= n) by (nonlinear_arith)
            requires
                ch > 0,
        ;
    }
}

/// Helper fact so `take` of the full row sequence is the sequence itself.
proof fn lemma_rows_save_prefix(rows: Seq<Seq<PatternSlot>>)
    ensures
        XmPattern::spec_rows_save(rows.take(rows.len() as int)) == XmPattern::spec_rows_save(rows),
{
    assert(rows.take(rows.len() as int) =~= rows);
}

} // verus!
