//! The XI standalone instrument file: an id header, the default
//! instrument block, then the instrument's samples.

use vstd::prelude::*;

use crate::cursor::read_u16_le;
use crate::cursor::spec_u16_le;
use crate::cursor::spec_u32_le;
use crate::error::CodecError;
use crate::fixedstr::decoded_field;
use crate::fixedstr::fixed_bytes_to_string;
use crate::fixedstr::trimmed;
use crate::fixedstr::trimmed_range;

use super::xminstrument::lemma_sample_lengths_mono;
use super::xminstrument::spec_sample_lengths_sum;
use super::xminstrument::XmInstrDefault;
use super::xminstrument::XmInstrument;
use super::xminstrument::XmInstrumentHeader;
use super::xminstrument::XmInstrumentType;
use super::xminstrument::XMINSTRUMENT_SIZE;
use super::xmsample::XmSample;
use super::xmsample::XMSAMPLE_HEADER_SIZE;

verus! {

/// The id text every XI file opens with, once padding is trimmed:
/// `Extended Instrument:`.
pub open spec fn xi_id_bytes() -> Seq<u8> {
    seq![
        0x45u8,
        0x78u8,
        0x74u8,
        0x65u8,
        0x6Eu8,
        0x64u8,
        0x65u8,
        0x64u8,
        0x20u8,
        0x49u8,
        0x6Eu8,
        0x73u8,
        0x74u8,
        0x72u8,
        0x75u8,
        0x6Du8,
        0x65u8,
        0x6Eu8,
        0x74u8,
        0x3Au8,
    ]
}

/// The 16 id bytes of an XI file as a vector.
fn xi_id_vec() -> (r: Vec<u8>)
    ensures
        r@ == xi_id_bytes(),
{
    let mut v: Vec<u8> = Vec::new();
    v.push(0x45);
    v.push(0x78);
    v.push(0x74);
    v.push(0x65);
    v.push(0x6E);
    v.push(0x64);
    v.push(0x65);
    v.push(0x64);
    v.push(0x20);
    v.push(0x49);
    v.push(0x6E);
    v.push(0x73);
    v.push(0x74);
    v.push(0x72);
    v.push(0x75);
    v.push(0x6D);
    v.push(0x65);
    v.push(0x6E);
    v.push(0x74);
    v.push(0x3A);
    proof {
        assert(v@ =~= xi_id_bytes());
    }
    v
}

/// The fixed header of an XI file.
#[derive(Clone, Debug, PartialEq)]
pub struct XiInstrumentHeader {
    /// Instrument name, 22 bytes on disk.
    pub name: String,
    /// Name of the tracker that wrote the file, 20 bytes on disk.
    pub tracker_name: String,
    /// Format version.
    pub version_number: u16,
}

/// A standalone instrument file held in memory.
#[derive(Clone, Debug, PartialEq)]
pub struct XiInstrument {
    /// The file header.
    pub header: XiInstrumentHeader,
    /// The default instrument block.
    pub instr: XmInstrDefault,
    /// Number of samples.
    pub num_samples: u16,
}

impl XiInstrument {
    /// Load a standalone XI instrument file into an XM instrument record:
    /// the id header, the default block, then all sample headers followed
    /// by all sample payloads.
    pub fn load(data: &[u8]) -> (r: Result<XmInstrument, CodecError>)
        ensures
            r matches Ok(xi) ==> {
                &&& data@.len() >= 298
                &&& trimmed(data@.subrange(0, 21)) == xi_id_bytes()
                &&& xi.header.name@ == decoded_field(data@.subrange(21, 43))
                &&& xi.instr is Classic
                &&& xi.sample@.len() as int == spec_u16_le(data@, 296)
                &&& xi.samples_loaded()
            },
            r is Err <==> ({
                let num = spec_u16_le(data@, 296);
                ||| data@.len() < 298
                ||| trimmed(data@.subrange(0, 21)) != xi_id_bytes()
                ||| (num > 0 && 298 + 40 * num + spec_sample_lengths_sum(data@, 298, num)
                    > data@.len())
            }),
    {
        if data.len() < 298 {
            return Err(CodecError::Truncated);
        }
        let id: &[u8] = &data[0..21];
        let (ts, te) = trimmed_range(id);
        let expected = xi_id_vec();
        if te - ts != expected.len() {
            return Err(CodecError::FormatMismatch);
        }
        let mut k: usize = 0;
        while k < expected.len()
            invariant
                ts + expected@.len() <= id@.len() <= data@.len(),
                te - ts == expected@.len(),
                k <= expected@.len(),
                id@ == data@.subrange(0, 21),
                trimmed(id@) == id@.subrange(ts as int, te as int),
                expected@ == xi_id_bytes(),
                forall|j: int| 0 <= j < k ==> id@[ts + j] == expected@[j],
            decreases expected@.len() - k,
        {
            if id[ts + k] != expected[k] {
                proof {
                    assert(trimmed(id@)[k as int] != xi_id_bytes()[k as int]);
                }
                return Err(CodecError::FormatMismatch);
            }
            k = k + 1;
        }
        proof {
            assert(trimmed(data@.subrange(0, 21)) =~= xi_id_bytes());
        }
        let name = fixed_bytes_to_string(&data[21..43]);
        let xmid = match XmInstrDefault::load(data, 66) {
            Ok(x) => x,
            Err(e) => {
                return Err(e);
            },
        };
        let num_samples = read_u16_le(data, 296);
        let header = XmInstrumentHeader {
            instrument_header_len: XMINSTRUMENT_SIZE as u32,
            name,
            instr_type: 0,
            num_samples,
        };
        if num_samples == 0 {
            let xmi = XmInstrument {
                header,
                sample_header_size: XMSAMPLE_HEADER_SIZE as u32,
                instr: XmInstrumentType::Classic(xmid),
                sample: Vec::new(),
            };
            return Ok(xmi);
        }
        let num = num_samples as usize;
        let mut sample: Vec<XmSample> = Vec::new();
        let mut cur: usize = 298;
        let mut i: usize = 0;
        while i < num
            invariant
                i <= num,
                1 <= num <= 65535,
                num == spec_u16_le(data@, 296),
                data@.len() >= 298,
                trimmed(data@.subrange(0, 21)) == xi_id_bytes(),
                sample@.len() == i,
                cur == 298 + 40 * i,
                cur <= data@.len(),
                forall|j: int|
                    0 <= j < i ==> (#[trigger] sample@[j]).header.length as int == spec_u32_le(
                        data@,
                        298 + 40 * j,
                    ),
            decreases num - i,
        {
            match XmSample::load(data, cur) {
                Ok((s, p2)) => {
                    sample.push(s);
                    cur = p2;
                },
                Err(e) => {
                    proof {
                        lemma_sample_lengths_mono(data@, 298, 0, num as int);
                    }
                    return Err(e);
                },
            }
            i = i + 1;
        }
        let mut i2: usize = 0;
        while i2 < num
            invariant
                i2 <= num,
                1 <= num <= 65535,
                num == spec_u16_le(data@, 296),
                data@.len() >= 298,
                trimmed(data@.subrange(0, 21)) == xi_id_bytes(),
                sample@.len() == num,
                cur == 298 + 40 * num + spec_sample_lengths_sum(data@, 298, i2 as int),
                cur <= data@.len(),
                forall|j: int| 0 <= j < i2 ==> (#[trigger] sample@[j]).data is Some,
                forall|j: int|
                    0 <= j < num ==> (#[trigger] sample@[j]).header.length as int == spec_u32_le(
                        data@,
                        298 + 40 * j,
                    ),
            decreases num - i2,
        {
            let mut s = sample.remove(i2);
            let ghost pre = sample@;
            match s.add_sample(data, cur) {
                Ok(p2) => {
                    cur = p2;
                },
                Err(e) => {
                    proof {
                        assert(spec_sample_lengths_sum(data@, 298, i2 + 1)
                            == spec_sample_lengths_sum(data@, 298, i2 as int) + spec_u32_le(
                            data@,
                            298 + 40 * i2,
                        ));
                        lemma_sample_lengths_mono(data@, 298, i2 + 1, num as int);
                    }
                    return Err(e);
                },
            }
            sample.insert(i2, s);
            proof {
                assert(spec_sample_lengths_sum(data@, 298, i2 + 1)
                    == spec_sample_lengths_sum(data@, 298, i2 as int) + spec_u32_le(
                    data@,
                    298 + 40 * i2,
                ));
                assert forall|j: int|
                    0 <= j < num implies (#[trigger] sample@[j]).header.length as int
                    == spec_u32_le(data@, 298 + 40 * j) by {
                    if j < i2 {
                        assert(sample@[j] == pre[j]);
                    } else if j > i2 {
                        assert(sample@[j] == pre[j - 1]);
                    }
                }
            }
            i2 = i2 + 1;
        }
        Ok(
            XmInstrument {
                header,
                sample_header_size: XMSAMPLE_HEADER_SIZE as u32,
                instr: XmInstrumentType::Classic(xmid),
                sample,
            },
        )
    }
}

} // verus!
