//! Binary primitives of the XM codec: little-endian 16-bit packing and the
//! differential (delta) coding of sample payloads.

use vstd::prelude::*;

verus! {

/// Wrapping byte addition over mathematical integers in 0..256.
pub open spec fn wrap_add8(x: int, y: int) -> int {
    if x + y > 255 {
        x + y - 256
    } else {
        x + y
    }
}

/// Wrapping byte subtraction over mathematical integers in 0..256.
pub open spec fn wrap_sub8(x: int, y: int) -> int {
    if x - y < 0 {
        x - y + 256
    } else {
        x - y
    }
}

/// Wrapping 16-bit addition over mathematical integers in 0..65536.
pub open spec fn wrap_add16(x: int, y: int) -> int {
    if x + y > 65535 {
        x + y - 65536
    } else {
        x + y
    }
}

/// Wrapping 16-bit subtraction over mathematical integers in 0..65536.
pub open spec fn wrap_sub16(x: int, y: int) -> int {
    if x - y < 0 {
        x - y + 65536
    } else {
        x - y
    }
}

/// The running sum of the first `i` deltas, the value a delta-coded sample
/// stream has reached: the first delta is relative to an implicit zero.
pub open spec fn spec_acc8(d: Seq<u8>, i: int) -> int
    decreases i,
{
    if i <= 0 {
        0
    } else {
        wrap_add8(spec_acc8(d, i - 1), d[i - 1] as int)
    }
}

/// The samples a delta stream decodes to.
pub open spec fn spec_delta8_decode(d: Seq<u8>) -> Seq<i8> {
    Seq::new(d.len(), |i: int| spec_acc8(d, i + 1) as u8 as i8)
}

/// The delta stream a sample sequence encodes to: each entry is the
/// difference from the previous sample, the first relative to zero.
pub open spec fn spec_delta8_encode(s: Seq<i8>) -> Seq<u8> {
    Seq::new(
        s.len(),
        |i: int|
            wrap_sub8(
                s[i] as u8 as int,
                if i == 0 {
                    0
                } else {
                    s[i - 1] as u8 as int
                },
            ) as u8,
    )
}

/// The running sum of the first `i` 16-bit deltas.
pub open spec fn spec_acc16(d: Seq<u16>, i: int) -> int
    decreases i,
{
    if i <= 0 {
        0
    } else {
        wrap_add16(spec_acc16(d, i - 1), d[i - 1] as int)
    }
}

/// The samples a 16-bit delta stream decodes to.
pub open spec fn spec_delta16_decode(d: Seq<u16>) -> Seq<i16> {
    Seq::new(d.len(), |i: int| spec_acc16(d, i + 1) as u16 as i16)
}

/// The delta stream a 16-bit sample sequence encodes to.
pub open spec fn spec_delta16_encode(s: Seq<i16>) -> Seq<u16> {
    Seq::new(
        s.len(),
        |i: int|
            wrap_sub16(
                s[i] as u16 as int,
                if i == 0 {
                    0
                } else {
                    s[i - 1] as u16 as int
                },
            ) as u16,
    )
}

/// The 16-bit words read little-endian from a byte sequence; a trailing
/// odd byte is ignored.
pub open spec fn spec_le_u16s(b: Seq<u8>) -> Seq<u16> {
    Seq::new((b.len() / 2) as nat, |i: int| (b[2 * i] + 256 * b[2 * i + 1]) as u16)
}

/// The little-endian bytes of a 16-bit word sequence.
pub open spec fn spec_le_bytes(w: Seq<u16>) -> Seq<u8> {
    Seq::new(
        (2 * w.len()) as nat,
        |i: int|
            if i % 2 == 0 {
                (w[i / 2] as int % 256) as u8
            } else {
                (w[i / 2] as int / 256) as u8
            },
    )
}

/// Read a byte buffer as little-endian 16-bit words; when the buffer holds
/// an odd number of bytes the last byte is dropped.
pub fn u8_slice_to_vec_u16(u8_slice: &[u8]) -> (r: Vec<u16>)
    ensures
        r@ == spec_le_u16s(u8_slice@),
{
    let len0 = u8_slice.len();
    let n = len0 / 2;
    let mut r: Vec<u16> = Vec::new();
    let mut i: usize = 0;
    while i < n
        invariant
            len0 == u8_slice@.len(),
            n == u8_slice@.len() / 2,
            2 * n <= len0,
            i <= n,
            r@ =~= spec_le_u16s(u8_slice@).take(i as int),
        decreases n - i,
    {
        proof {
            assert(2 * (u8_slice@.len() / 2) <= u8_slice@.len());
            assert(2 * i + 1 < u8_slice@.len());
        }
        let lo = u8_slice[2 * i];
        let hi = u8_slice[2 * i + 1];
        let w: u16 = lo as u16 + 256 * (hi as u16);
        r.push(w);
        proof {
            assert(r@ =~= spec_le_u16s(u8_slice@).take(i + 1));
        }
        i = i + 1;
    }
    proof {
        assert(spec_le_u16s(u8_slice@).take(n as int) =~= spec_le_u16s(u8_slice@));
    }
    r
}

/// Write a 16-bit word sequence as little-endian bytes.
pub fn vec_u16_to_u8_slice(u16_vec: Vec<u16>) -> (r: Vec<u8>)
    ensures
        r@ == spec_le_bytes(u16_vec@),
{
    let n = u16_vec.len();
    let mut r: Vec<u8> = Vec::new();
    let mut i: usize = 0;
    while i < n
        invariant
            n == u16_vec@.len(),
            i <= n,
            r@ =~= spec_le_bytes(u16_vec@).take(2 * i as int),
        decreases n - i,
    {
        let w = u16_vec[i];
        r.push((w % 256) as u8);
        r.push((w / 256) as u8);
        proof {
            assert(r@ =~= spec_le_bytes(u16_vec@).take(2 * (i + 1)));
        }
        i = i + 1;
    }
    proof {
        assert(spec_le_bytes(u16_vec@).take(2 * n as int) =~= spec_le_bytes(u16_vec@));
    }
    r
}

/// Reading little-endian bytes back gives the words that wrote them.
pub proof fn lemma_le_words_roundtrip(w: Seq<u16>)
    ensures
        spec_le_u16s(spec_le_bytes(w)) == w,
{
    let b = spec_le_bytes(w);
    assert forall|i: int| 0 <= i < w.len() implies spec_le_u16s(b)[i] == w[i] by {
        assert(b[2 * i] == (w[i] as int % 256) as u8);
        assert(b[2 * i + 1] == (w[i] as int / 256) as u8);
        assert(w[i] as int % 256 + 256 * (w[i] as int / 256) == w[i] as int);
    }
    assert(spec_le_u16s(b) =~= w);
}

/// Writing words read from an even number of bytes gives the bytes back.
pub proof fn lemma_le_bytes_roundtrip(b: Seq<u8>)
    requires
        b.len() % 2 == 0,
    ensures
        spec_le_bytes(spec_le_u16s(b)) == b,
{
    let w = spec_le_u16s(b);
    assert forall|i: int| 0 <= i < b.len() implies spec_le_bytes(w)[i] == b[i] by {
        let j = i / 2;
        assert(w[j] == (b[2 * j] + 256 * b[2 * j + 1]) as u16);
        if i % 2 == 0 {
            assert(2 * j == i);
            assert((b[i] + 256 * b[i + 1]) as int % 256 == b[i] as int);
        } else {
            assert(2 * j + 1 == i);
            assert((b[i - 1] + 256 * b[i]) as int / 256 == b[i] as int);
        }
    }
    assert(spec_le_bytes(w) =~= b);
}

/// Decode an 8-bit delta stream: each sample is the running sum of the
/// deltas seen so far.
pub fn delta8_to_sample(delta: Vec<u8>) -> (r: Vec<i8>)
    ensures
        r@ == spec_delta8_decode(delta@),
{
    let mut sample: Vec<i8> = Vec::new();
    let mut old: u8 = 0;
    let mut i: usize = 0;
    let n = delta.len();
    while i < n
        invariant
            n == delta@.len(),
            i <= n,
            old as int == spec_acc8(delta@, i as int),
            sample@ =~= spec_delta8_decode(delta@).take(i as int),
        decreases n - i,
    {
        let new = delta[i].wrapping_add(old);
        sample.push(new as i8);
        proof {
            assert(sample@ =~= spec_delta8_decode(delta@).take(i + 1));
        }
        old = new;
        i = i + 1;
    }
    proof {
        assert(spec_delta8_decode(delta@).take(n as int) =~= spec_delta8_decode(delta@));
    }
    sample
}

/// Decode a 16-bit delta stream.
pub fn delta16_to_sample(delta: Vec<u16>) -> (r: Vec<i16>)
    ensures
        r@ == spec_delta16_decode(delta@),
{
    let mut sample: Vec<i16> = Vec::new();
    let mut old: u16 = 0;
    let mut i: usize = 0;
    let n = delta.len();
    while i < n
        invariant
            n == delta@.len(),
            i <= n,
            old as int == spec_acc16(delta@, i as int),
            sample@ =~= spec_delta16_decode(delta@).take(i as int),
        decreases n - i,
    {
        let new = delta[i].wrapping_add(old);
        sample.push(new as i16);
        proof {
            assert(sample@ =~= spec_delta16_decode(delta@).take(i + 1));
        }
        old = new;
        i = i + 1;
    }
    proof {
        assert(spec_delta16_decode(delta@).take(n as int) =~= spec_delta16_decode(delta@));
    }
    sample
}

/// Encode samples as an 8-bit delta stream: the running difference, the
/// inverse of `delta8_to_sample`.
pub fn sample8_to_delta(sample: &Vec<i8>) -> (r: Vec<u8>)
    ensures
        r@ == spec_delta8_encode(sample@),
{
    let mut delta: Vec<u8> = Vec::new();
    let mut prev: u8 = 0;
    let mut i: usize = 0;
    let n = sample.len();
    while i < n
        invariant
            n == sample@.len(),
            i <= n,
            prev as int == if i == 0 {
                0
            } else {
                sample@[i - 1] as u8 as int
            },
            delta@ =~= spec_delta8_encode(sample@).take(i as int),
        decreases n - i,
    {
        let a = sample[i] as u8;
        let d = a.wrapping_sub(prev);
        delta.push(d);
        proof {
            assert(delta@ =~= spec_delta8_encode(sample@).take(i + 1));
        }
        prev = a;
        i = i + 1;
    }
    proof {
        assert(spec_delta8_encode(sample@).take(n as int) =~= spec_delta8_encode(sample@));
    }
    delta
}

/// Encode samples as a 16-bit delta stream, the inverse of
/// `delta16_to_sample`.
pub fn sample16_to_delta(sample: &Vec<i16>) -> (r: Vec<u16>)
    ensures
        r@ == spec_delta16_encode(sample@),
{
    let mut delta: Vec<u16> = Vec::new();
    let mut prev: u16 = 0;
    let mut i: usize = 0;
    let n = sample.len();
    while i < n
        invariant
            n == sample@.len(),
            i <= n,
            prev as int == if i == 0 {
                0
            } else {
                sample@[i - 1] as u16 as int
            },
            delta@ =~= spec_delta16_encode(sample@).take(i as int),
        decreases n - i,
    {
        let a = sample[i] as u16;
        let d = a.wrapping_sub(prev);
        delta.push(d);
        proof {
            assert(delta@ =~= spec_delta16_encode(sample@).take(i + 1));
        }
        prev = a;
        i = i + 1;
    }
    proof {
        assert(spec_delta16_encode(sample@).take(n as int) =~= spec_delta16_encode(sample@));
    }
    delta
}

/// The delta codec is its own inverse: decoding what was encoded restores
/// every 8-bit sample sequence exactly.
pub proof fn lemma_delta8_roundtrip(s: Seq<i8>)
    ensures
        spec_delta8_decode(spec_delta8_encode(s)) == s,
{
    let e = spec_delta8_encode(s);
    assert forall|i: int| 0 <= i <= s.len() implies spec_acc8(e, i) == if i == 0 {
        0int
    } else {
        s[i - 1] as u8 as int
    } by {
        lemma_acc8_tracks(s, i);
    }
    assert forall|i: int| 0 <= i < s.len() implies spec_delta8_decode(e)[i] == s[i] by {
        lemma_acc8_tracks(s, i + 1);
        assert(spec_acc8(e, i + 1) == s[i] as u8 as int);
        assert(spec_acc8(e, i + 1) as u8 == s[i] as u8);
        let x = s[i];
        assert(x as u8 as i8 == x) by (bit_vector);
    }
    assert(spec_delta8_decode(e) =~= s);
}

/// The running sum of the encoded deltas is always the latest sample.
proof fn lemma_acc8_tracks(s: Seq<i8>, i: int)
    requires
        0 <= i <= s.len(),
    ensures
        spec_acc8(spec_delta8_encode(s), i) == if i == 0 {
            0int
        } else {
            s[i - 1] as u8 as int
        },
    decreases i,
{
    if i > 0 {
        lemma_acc8_tracks(s, i - 1);
    }
}

/// The delta codec is its own inverse: decoding what was encoded restores
/// every 16-bit sample sequence exactly.
pub proof fn lemma_delta16_roundtrip(s: Seq<i16>)
    ensures
        spec_delta16_decode(spec_delta16_encode(s)) == s,
{
    let e = spec_delta16_encode(s);
    assert forall|i: int| 0 <= i < s.len() implies spec_delta16_decode(e)[i] == s[i] by {
        lemma_acc16_tracks(s, i + 1);
        assert(spec_acc16(e, i + 1) == s[i] as u16 as int);
        assert(spec_acc16(e, i + 1) as u16 == s[i] as u16);
        let x = s[i];
        assert(x as u16 as i16 == x) by (bit_vector);
    }
    assert(spec_delta16_decode(e) =~= s);
}

/// The running sum of the encoded 16-bit deltas is always the latest
/// sample.
proof fn lemma_acc16_tracks(s: Seq<i16>, i: int)
    requires
        0 <= i <= s.len(),
    ensures
        spec_acc16(spec_delta16_encode(s), i) == if i == 0 {
            0int
        } else {
            s[i - 1] as u16 as int
        },
    decreases i,
{
    if i > 0 {
        lemma_acc16_tracks(s, i - 1);
    }
}

} // verus!
