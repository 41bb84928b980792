//! The XP exchange format: one pattern of 32-channel rows, cells unpacked.

use vstd::prelude::*;

use crate::cursor::push_u16_le;
use crate::cursor::spec_u16_le_bytes;
use crate::patternslot::PatternSlot;

use super::xmpatternslot::spec_slot_save_unpack;

verus! {

/// Saves one pattern in the XP layout.
pub struct XpPattern;

/// The unpacked bytes of one row of cells.
pub open spec fn spec_row_unpack(row: Seq<PatternSlot>) -> Seq<u8>
    decreases row.len(),
{
    if row.len() == 0 {
        Seq::<u8>::empty()
    } else {
        spec_row_unpack(row.drop_last()) + spec_slot_save_unpack(row.last())
    }
}

/// The unpacked bytes of a sequence of rows.
pub open spec fn spec_rows_unpack(rows: Seq<Seq<PatternSlot>>) -> Seq<u8>
    decreases rows.len(),
{
    if rows.len() == 0 {
        Seq::<u8>::empty()
    } else {
        spec_rows_unpack(rows.drop_last()) + spec_row_unpack(rows.last())
    }
}

impl XpPattern {
    /// Write a pattern in the XP layout: version word, row count, then
    /// every cell unpacked. XP files carry exactly 32 tracks per row, so a
    /// pattern with any other width is refused.
    pub fn save(pattern: &Vec<Vec<PatternSlot>>) -> (r: Option<Vec<u8>>)
        requires
            pattern@.len() > 0,
            pattern@.len() <= 65535,
        ensures
            r is Some <==> pattern@[0]@.len() == 32,
            r matches Some(out) ==> out@ == spec_u16_le_bytes(1) + spec_u16_le_bytes(
                pattern@.len() as u16,
            ) + spec_rows_unpack(crate::module::pattern_view(*pattern)),
    {
        if pattern[0].len() != 32 {
            return Option::None;
        }
        let mut data: Vec<u8> = Vec::new();
        push_u16_le(&mut data, 1);
        push_u16_le(&mut data, pattern.len() as u16);
        let ghost prefix = data@;
        let nrows = pattern.len();
        let mut i: usize = 0;
        while i < nrows
            invariant
                nrows == pattern@.len(),
                i <= nrows,
                data@ =~= prefix + spec_rows_unpack(
                    crate::module::pattern_view(*pattern).take(i as int),
                ),
            decreases nrows - i,
        {
            let row: &Vec<PatternSlot> = &pattern[i];
            let nc = row.len();
            let mut c: usize = 0;
            while c < nc
                invariant
                    nc == row@.len(),
                    c <= nc,
                    data@ =~= prefix + spec_rows_unpack(
                        crate::module::pattern_view(*pattern).take(i as int),
                    ) + spec_row_unpack(row@.take(c as int)),
                decreases nc - c,
            {
                let mut d = row[c].save_unpack();
                data.append(&mut d);
                proof {
                    assert(row@.take(c + 1).drop_last() =~= row@.take(c as int));
                    assert(row@.take(c + 1).last() == row@[c as int]);
                }
                c = c + 1;
            }
            proof {
                assert(row@.take(nc as int) =~= row@);
                assert(crate::module::pattern_view(*pattern).take(i + 1).drop_last()
                    =~= crate::module::pattern_view(*pattern).take(i as int));
                assert(crate::module::pattern_view(*pattern).take(i + 1).last() =~= row@);
            }
            i = i + 1;
        }
        proof {
            assert(crate::module::pattern_view(*pattern).take(nrows as int)
                =~= crate::module::pattern_view(*pattern));
        }
        Some(data)
    }
}

} // verus!
