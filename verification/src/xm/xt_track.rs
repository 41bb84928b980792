//! The XT exchange format: one track of cells, unpacked.

use vstd::prelude::*;

use crate::cursor::push_u16_le;
use crate::cursor::spec_u16_le_bytes;
use crate::patternslot::PatternSlot;

use super::xp_pattern::spec_row_unpack;

verus! {

/// Saves one track in the XT layout.
pub struct XtTrack;

impl XtTrack {
    /// Write a track in the XT layout: version word, cell count, then
    /// every cell unpacked. The cells here are one channel's column, not a
    /// pattern row.
    pub fn save(track: &Vec<PatternSlot>) -> (r: Vec<u8>)
        requires
            track@.len() <= 65535,
        ensures
            r@ == spec_u16_le_bytes(1) + spec_u16_le_bytes(track@.len() as u16) + spec_row_unpack(
                track@,
            ),
    {
        let mut data: Vec<u8> = Vec::new();
        push_u16_le(&mut data, 1);
        push_u16_le(&mut data, track.len() as u16);
        let ghost prefix = data@;
        let n = track.len();
        let mut i: usize = 0;
        while i < n
            invariant
                n == track@.len(),
                i <= n,
                data@ =~= prefix + spec_row_unpack(track@.take(i as int)),
            decreases n - i,
        {
            let mut d = track[i].save_unpack();
            data.append(&mut d);
            proof {
                assert(track@.take(i + 1).drop_last() =~= track@.take(i as int));
                assert(track@.take(i + 1).last() == track@[i as int]);
            }
            i = i + 1;
        }
        proof {
            assert(track@.take(n as int) =~= track@);
        }
        data
    }
}

} // verus!
