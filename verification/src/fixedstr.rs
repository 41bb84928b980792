//! Fixed-width string fields of the historical formats.
//!
//! Names in module files live in fixed-size byte fields: NUL-padded on
//! encode, NUL- and whitespace-trimmed on decode. Encoding truncates at the
//! field width without ever splitting a multi-byte UTF-8 sequence.

use vstd::prelude::*;
use vstd::slice::slice_to_vec;
use vstd::string::StringExecFns;
use vstd::string::StringSliceAdditionalSpecFns;
use vstd::utf8::decode_utf8;
use vstd::utf8::is_char_boundary;
use vstd::utf8::is_continuation_byte;
use vstd::utf8::is_leading_byte_width_1;
use vstd::utf8::length_of_first_scalar;
use vstd::utf8::pop_first_scalar;
use vstd::utf8::valid_first_scalar;
use vstd::utf8::valid_utf8;

verus! {

/// Bytes stripped from both ends of a fixed-width field on decode: NUL
/// padding and ASCII whitespace.
pub open spec fn is_trim_byte(b: u8) -> bool {
    b == 0 || b == 0x20 || b == 0x09 || b == 0x0A || b == 0x0D
}

/// The sequence with leading trim bytes removed.
pub open spec fn trim_front(s: Seq<u8>) -> Seq<u8>
    decreases s.len(),
{
    if s.len() > 0 && is_trim_byte(s[0]) {
        trim_front(s.drop_first())
    } else {
        s
    }
}

/// The sequence with trailing trim bytes removed.
pub open spec fn trim_back(s: Seq<u8>) -> Seq<u8>
    decreases s.len(),
{
    if s.len() > 0 && is_trim_byte(s[s.len() - 1]) {
        trim_back(s.drop_last())
    } else {
        s
    }
}

/// The sequence with trim bytes removed from both ends.
pub open spec fn trimmed(s: Seq<u8>) -> Seq<u8> {
    trim_back(trim_front(s))
}

/// The subsequence of plain ASCII bytes, kept in order. This is the
/// fallback reading of a field that is not valid UTF-8.
pub open spec fn ascii_kept(s: Seq<u8>) -> Seq<u8>
    decreases s.len(),
{
    if s.len() == 0 {
        seq![]
    } else {
        ascii_kept(s.drop_last()) + (if s.last() < 0x80 {
            seq![s.last()]
        } else {
            Seq::<u8>::empty()
        })
    }
}

/// The characters a fixed-width field decodes to: its trimmed bytes read as
/// UTF-8, or, when they are not valid UTF-8, only their plain ASCII bytes.
pub open spec fn decoded_field(s: Seq<u8>) -> Seq<char> {
    if valid_utf8(trimmed(s)) {
        decode_utf8(trimmed(s))
    } else {
        decode_utf8(ascii_kept(trimmed(s)))
    }
}

/// `n` NUL bytes.
pub open spec fn zero_bytes(n: int) -> Seq<u8> {
    Seq::new(n as nat, |i: int| 0u8)
}

/// How many bytes of `bytes` fit in a field of width `limit` without
/// splitting a UTF-8 sequence: the largest prefix length at or below
/// `limit` that falls on a character boundary.
pub open spec fn spec_fit_len(bytes: Seq<u8>, limit: int) -> int
    decreases limit,
{
    if limit <= 0 {
        0
    } else if limit >= bytes.len() {
        bytes.len() as int
    } else if is_char_boundary(bytes, limit) {
        limit
    } else {
        spec_fit_len(bytes, limit - 1)
    }
}

/// The number of bytes a UTF-8 sequence starting with `ch` occupies: 1..=4
/// for a leading byte, 0 for a continuation or invalid byte.
pub open spec fn spec_utf8_char_width(ch: u8) -> usize {
    if ch <= 127 {
        1
    } else if ch <= 191 {
        0
    } else if ch <= 223 {
        2
    } else if ch <= 239 {
        3
    } else if ch <= 247 {
        4
    } else {
        0
    }
}

/// The number of bytes a UTF-8 sequence starting with `ch` occupies: 1..=4
/// for a leading byte, 0 for a continuation or invalid byte.
pub fn utf8_char_width(ch: u8) -> (r: usize)
    ensures
        r == spec_utf8_char_width(ch),
{
    if ch <= 127 {
        1
    } else if ch <= 191 {
        0
    } else if ch <= 223 {
        2
    } else if ch <= 239 {
        3
    } else if ch <= 247 {
        4
    } else {
        0
    }
}

/// Relies on `String::from_utf8` of std: bytes that are valid UTF-8 decode
/// to exactly the string whose UTF-8 encoding they are, and invalid bytes
/// are refused.
#[verifier::external_body]
fn string_from_utf8(bytes: Vec<u8>) -> (r: Option<String>)
    ensures
        r is Some <==> valid_utf8(bytes@),
        r matches Some(s) ==> s@ == decode_utf8(bytes@),
{
    match String::from_utf8(bytes) {
        Ok(s) => Some(s),
        Err(_) => None,
    }
}

/// All plain ASCII bytes form a valid UTF-8 encoding.
pub proof fn lemma_ascii_bytes_valid_utf8(s: Seq<u8>)
    requires
        forall|i: int| 0 <= i < s.len() ==> s[i] < 0x80,
    ensures
        valid_utf8(s),
    decreases s.len(),
{
    if s.len() > 0 {
        assert(is_leading_byte_width_1(s[0]));
        assert(valid_first_scalar(s));
        assert(length_of_first_scalar(s) == 1);
        assert(pop_first_scalar(s) =~= s.drop_first());
        lemma_ascii_bytes_valid_utf8(s.drop_first());
    }
}

/// Every byte `ascii_kept` keeps is plain ASCII.
proof fn lemma_ascii_kept_is_ascii(s: Seq<u8>)
    ensures
        forall|i: int| 0 <= i < ascii_kept(s).len() ==> ascii_kept(s)[i] < 0x80,
    decreases s.len(),
{
    if s.len() > 0 {
        lemma_ascii_kept_is_ascii(s.drop_last());
        let a = ascii_kept(s.drop_last());
        assert forall|i: int| 0 <= i < ascii_kept(s).len() implies ascii_kept(s)[i] < 0x80 by {
            if i < a.len() {
                assert(ascii_kept(s)[i] == a[i]);
            } else {
                assert(ascii_kept(s)[i] == s.last());
            }
        }
    }
}

/// A front trim is the scan that stops at the first kept byte.
pub proof fn lemma_trim_front_index(s: Seq<u8>, k: int)
    requires
        0 <= k <= s.len(),
        forall|i: int| 0 <= i < k ==> is_trim_byte(s[i]),
        k < s.len() ==> !is_trim_byte(s[k]),
    ensures
        trim_front(s) =~= s.skip(k),
    decreases k,
{
    if k == 0 {
        if s.len() > 0 {
            assert(!is_trim_byte(s[0]));
        }
        assert(s.skip(0) =~= s);
    } else {
        assert(is_trim_byte(s[0]));
        lemma_trim_front_index(s.drop_first(), k - 1);
        assert(s.drop_first().skip(k - 1) =~= s.skip(k));
    }
}

/// A back trim is the scan that stops at the last kept byte.
pub proof fn lemma_trim_back_index(s: Seq<u8>, k: int)
    requires
        0 <= k <= s.len(),
        forall|i: int| k <= i < s.len() ==> is_trim_byte(s[i]),
        k > 0 ==> !is_trim_byte(s[k - 1]),
    ensures
        trim_back(s) =~= s.take(k),
    decreases s.len() - k,
{
    if k == s.len() {
        if k > 0 {
            assert(!is_trim_byte(s[s.len() - 1]));
        }
        assert(s.take(k) =~= s);
    } else {
        assert(is_trim_byte(s[s.len() - 1]));
        lemma_trim_back_index(s.drop_last(), k);
        assert(s.drop_last().take(k) =~= s.take(k));
    }
}

/// The byte range a fixed-width field keeps once NUL and whitespace are
/// trimmed from both ends.
pub fn trimmed_range(b: &[u8]) -> (r: (usize, usize))
    ensures
        ({
            let (start, end) = r;
            &&& start <= end <= b@.len()
            &&& trimmed(b@) == b@.subrange(start as int, end as int)
        }),
{
    let n = b.len();
    let mut start: usize = 0;
    while start < n && (b[start] == 0 || b[start] == 0x20 || b[start] == 0x09 || b[start] == 0x0A
        || b[start] == 0x0D)
        invariant
            n == b@.len(),
            start <= n,
            forall|i: int| 0 <= i < start ==> is_trim_byte(b@[i]),
        decreases n - start,
    {
        start = start + 1;
    }
    let mut end: usize = n;
    while end > start && (b[end - 1] == 0 || b[end - 1] == 0x20 || b[end - 1] == 0x09 || b[end - 1]
        == 0x0A || b[end - 1] == 0x0D)
        invariant
            n == b@.len(),
            start <= end <= n,
            forall|i: int| 0 <= i < start ==> is_trim_byte(b@[i]),
            forall|i: int| end <= i < n ==> is_trim_byte(b@[i]),
        decreases end,
    {
        end = end - 1;
    }
    proof {
        lemma_trim_front_index(b@, start as int);
        let f = b@.skip(start as int);
        lemma_trim_back_index(f, end - start);
        assert(f.take(end - start) =~= b@.subrange(start as int, end as int));
    }
    (start, end)
}

/// Decode a fixed-width byte field to its name: trim NUL and whitespace
/// from both ends, then read the remainder as UTF-8, falling back to its
/// plain ASCII bytes when the field holds invalid UTF-8.
pub fn fixed_bytes_to_string(b: &[u8]) -> (r: String)
    ensures
        r@ == decoded_field(b@),
{
    let n = b.len();
    let (start, end) = trimmed_range(b);
    let mid: &[u8] = &b[start..end];
    assert(mid@ == trimmed(b@));
    let mid_vec: Vec<u8> = slice_to_vec(mid);
    match string_from_utf8(mid_vec) {
        Some(s) => s,
        Option::None => {
            let mut kept: Vec<u8> = Vec::new();
            let mut i: usize = start;
            while i < end
                invariant
                    n == b@.len(),
                    start <= i <= end <= n,
                    kept@ =~= ascii_kept(b@.subrange(start as int, i as int)),
                decreases end - i,
            {
                proof {
                    assert(b@.subrange(start as int, i + 1 as int).drop_last() =~= b@.subrange(
                        start as int,
                        i as int,
                    ));
                }
                if b[i] < 0x80 {
                    kept.push(b[i]);
                }
                i = i + 1;
            }
            proof {
                lemma_ascii_kept_is_ascii(b@.subrange(start as int, end as int));
                lemma_ascii_bytes_valid_utf8(kept@);
            }
            match string_from_utf8(kept) {
                Some(s) => s,
                Option::None => {
                    // unreachable: kept bytes are plain ASCII
                    assert(false);
                    String::new()
                },
            }
        },
    }
}

/// The fixed field of width `limit` that a name encodes to: the longest
/// prefix of its UTF-8 bytes that fits without splitting a multi-byte
/// sequence, NUL-padded to the field width.
pub open spec fn spec_fixed_field(chars: Seq<char>, limit: int) -> Seq<u8> {
    let bytes = vstd::utf8::encode_utf8(chars);
    bytes.take(spec_fit_len(bytes, limit)) + zero_bytes(limit - spec_fit_len(bytes, limit))
}

/// The fitted prefix never runs past the bytes or the field width.
proof fn lemma_fit_len_bounds(bytes: Seq<u8>, limit: int)
    ensures
        0 <= spec_fit_len(bytes, limit),
        spec_fit_len(bytes, limit) <= bytes.len(),
        limit >= 0 ==> spec_fit_len(bytes, limit) <= limit,
    decreases limit,
{
    if limit > 0 && limit < bytes.len() && !is_char_boundary(bytes, limit) {
        lemma_fit_len_bounds(bytes, limit - 1);
    }
}

/// A fixed field is exactly its declared width, whatever name it holds.
pub proof fn lemma_fixed_field_len(chars: Seq<char>, limit: int)
    requires
        limit >= 0,
    ensures
        spec_fixed_field(chars, limit).len() == limit,
{
    lemma_fit_len_bounds(vstd::utf8::encode_utf8(chars), limit);
}

/// Encode a name into a field of exactly `limit` bytes: the longest prefix
/// of its UTF-8 bytes that fits without splitting a multi-byte sequence,
/// NUL-padded to the field width.
pub fn string_to_fixed_bytes(s: &str, limit: usize) -> (r: Vec<u8>)
    ensures
        r@ == spec_fixed_field(s@, limit as int),
        r@.len() == limit,
        r@ =~= s.spec_bytes().take(spec_fit_len(s.spec_bytes(), limit as int)) + zero_bytes(
            limit - spec_fit_len(s.spec_bytes(), limit as int),
        ),
        s.spec_bytes().len() <= limit ==> r@ =~= s.spec_bytes() + zero_bytes(
            limit - s.spec_bytes().len(),
        ),
{
    proof {
        vstd::utf8::encode_utf8_valid_utf8(s@);
    }
    let bytes: &[u8] = s.as_bytes();
    let n = bytes.len();
    let m0: usize = if limit < n {
        limit
    } else {
        n
    };
    proof {
        if m0 < n {
            assert(spec_fit_len(bytes@, limit as int) == spec_fit_len(bytes@, m0 as int));
        }
    }
    let mut k: usize = m0;
    while k > 0 && k < n && bytes[k] >= 0x80 && bytes[k] <= 0xbf
        invariant
            n == bytes@.len(),
            valid_utf8(bytes@),
            k <= m0 <= n,
            spec_fit_len(bytes@, m0 as int) == spec_fit_len(bytes@, k as int),
        decreases k,
    {
        proof {
            vstd::utf8::is_char_boundary_iff_not_is_continuation_byte(bytes@, k as int);
        }
        k = k - 1;
    }
    proof {
        vstd::utf8::is_char_boundary_start_end_of_seq(bytes@);
        if k > 0 && k < n {
            vstd::utf8::is_char_boundary_iff_not_is_continuation_byte(bytes@, k as int);
        }
        assert(is_char_boundary(bytes@, k as int));
        assert(spec_fit_len(bytes@, k as int) == k as int);
    }
    let mut r: Vec<u8> = Vec::new();
    let mut i: usize = 0;
    while i < k
        invariant
            n == bytes@.len(),
            i <= k <= n,
            r@ =~= bytes@.take(i as int),
        decreases k - i,
    {
        r.push(bytes[i]);
        i = i + 1;
    }
    while r.len() < limit
        invariant
            k <= limit,
            k <= r@.len() <= limit,
            r@ =~= bytes@.take(k as int) + zero_bytes(r@.len() - k),
        decreases limit - r@.len(),
    {
        r.push(0);
        proof {
            assert(bytes@.take(k as int) + zero_bytes(r@.len() - k) =~= (bytes@.take(k as int)
                + zero_bytes(r@.len() - 1 - k)).push(0u8));
        }
    }
    r
}

/// The ASCII decimal digits of a non-negative value.
pub open spec fn spec_decimal_bytes(v: int) -> Seq<u8>
    decreases v,
{
    if v < 10 {
        seq![(0x30 + (if v >= 0 {
            v
        } else {
            0
        })) as u8]
    } else {
        spec_decimal_bytes(v / 10) + seq![(0x30 + (v % 10)) as u8]
    }
}

/// Append the decimal digits of `v`.
pub fn push_decimal(out: &mut Vec<u8>, v: u16)
    ensures
        final (out)@ == old(out)@ + spec_decimal_bytes(v as int),
    decreases v,
{
    if v < 10 {
        out.push(0x30 + v as u8);
        proof {
            assert(final (out)@ =~= old(out)@ + spec_decimal_bytes(v as int));
        }
    } else {
        push_decimal(out, v / 10);
        out.push(0x30 + (v % 10) as u8);
        proof {
            assert(final (out)@ =~= old(out)@ + spec_decimal_bytes(v as int));
        }
    }
}

/// The ASCII digits of `v` padded to at least two places.
pub open spec fn spec_decimal2_bytes(v: int) -> Seq<u8> {
    if v < 10 {
        seq![0x30u8] + spec_decimal_bytes(v)
    } else {
        spec_decimal_bytes(v)
    }
}

/// Append the decimal digits of `v`, zero-padded to two places.
pub fn push_decimal2(out: &mut Vec<u8>, v: u16)
    ensures
        final (out)@ == old(out)@ + spec_decimal2_bytes(v as int),
{
    if v < 10 {
        out.push(0x30);
    }
    push_decimal(out, v);
    proof {
        if v < 10 {
            assert(final (out)@ =~= old(out)@ + spec_decimal2_bytes(v as int));
        }
    }
}

/// The ASCII hex digit of a value below 16, upper case.
pub open spec fn spec_hex_digit(v: int) -> u8 {
    if v < 10 {
        (0x30 + (if v >= 0 {
            v
        } else {
            0
        })) as u8
    } else if v < 16 {
        (0x41 + (v - 10)) as u8
    } else {
        0x30
    }
}

/// The two upper-case hex digits of a byte.
pub open spec fn spec_hex2_bytes(v: u8) -> Seq<u8> {
    seq![spec_hex_digit(v as int / 16), spec_hex_digit(v as int % 16)]
}

/// Append the two upper-case hex digits of a byte.
pub fn push_hex2(out: &mut Vec<u8>, v: u8)
    ensures
        final (out)@ == old(out)@ + spec_hex2_bytes(v),
{
    let hi = v / 16;
    let lo = v % 16;
    if hi < 10 {
        out.push(0x30 + hi);
    } else {
        out.push(0x41 + (hi - 10));
    }
    if lo < 10 {
        out.push(0x30 + lo);
    } else {
        out.push(0x41 + (lo - 10));
    }
    proof {
        assert(final (out)@ =~= old(out)@ + spec_hex2_bytes(v));
    }
}

/// Every decimal digit byte is plain ASCII.
pub proof fn lemma_decimal_bytes_ascii(v: int)
    ensures
        forall|i: int|
            0 <= i < spec_decimal_bytes(v).len() ==> (#[trigger] spec_decimal_bytes(v)[i]) < 0x80,
    decreases v,
{
    if v >= 10 {
        lemma_decimal_bytes_ascii(v / 10);
        let a = spec_decimal_bytes(v / 10);
        assert forall|i: int|
            0 <= i < spec_decimal_bytes(v).len() implies (#[trigger] spec_decimal_bytes(v)[i])
            < 0x80 by {
            if i < a.len() {
                assert(spec_decimal_bytes(v)[i] == a[i]);
            } else {
                assert(spec_decimal_bytes(v)[i] == (0x30 + (v % 10)) as u8);
            }
        }
    }
}

/// Clone a string, keeping its characters.
pub fn clone_string(s: &String) -> (r: String)
    ensures
        r@ == s@,
{
    String::from_str(s.as_str())
}

/// Turn bytes already known to be valid UTF-8 into their string.
pub fn string_from_utf8_checked(bytes: Vec<u8>) -> (r: String)
    requires
        valid_utf8(bytes@),
    ensures
        r@ == decode_utf8(bytes@),
{
    match string_from_utf8(bytes) {
        Some(s) => s,
        Option::None => {
            // unreachable: the caller established validity
            assert(false);
            String::new()
        },
    }
}

/// Turn a byte string of plain ASCII into the string of those characters.
pub fn ascii_bytes_to_string(bytes: Vec<u8>) -> (r: String)
    requires
        forall|i: int| 0 <= i < bytes@.len() ==> bytes@[i] < 0x80,
    ensures
        r@ == decode_utf8(bytes@),
{
    proof {
        lemma_ascii_bytes_valid_utf8(bytes@);
    }
    match string_from_utf8(bytes) {
        Some(s) => s,
        Option::None => {
            // unreachable: the bytes are plain ASCII
            assert(false);
            String::new()
        },
    }
}

/// Padding with NUL bytes does not change what a back trim keeps.
proof fn lemma_trim_back_zero_pad(s: Seq<u8>, n: int)
    requires
        n >= 0,
    ensures
        trim_back(s + zero_bytes(n)) =~= trim_back(s),
    decreases n,
{
    if n == 0 {
        assert(s + zero_bytes(0) =~= s);
    } else {
        let w = s + zero_bytes(n);
        assert(is_trim_byte(w[w.len() - 1]));
        assert(w.drop_last() =~= s + zero_bytes(n - 1));
        lemma_trim_back_zero_pad(s, n - 1);
    }
}

/// A name round trip: a name whose UTF-8 bytes fit the field and whose ends
/// are not trimmable comes back from its fixed-width field unchanged.
pub proof fn lemma_fixed_field_roundtrip(chars: Seq<char>, limit: int)
    requires
        vstd::utf8::encode_utf8(chars).len() <= limit,
        chars.len() > 0 ==> !is_trim_byte(vstd::utf8::encode_utf8(chars)[0]),
        chars.len() > 0 ==> !is_trim_byte(vstd::utf8::encode_utf8(chars).last()),
    ensures
        decoded_field(vstd::utf8::encode_utf8(chars) + zero_bytes(limit - vstd::utf8::encode_utf8(
            chars,
        ).len())) == chars,
{
    let bytes = vstd::utf8::encode_utf8(chars);
    let field = bytes + zero_bytes(limit - bytes.len());
    vstd::utf8::encode_utf8_valid_utf8(chars);
    vstd::utf8::encode_utf8_decode_utf8(chars);
    if chars.len() == 0 {
        assert(bytes.len() == 0);
        lemma_trim_front_index(field, field.len() as int);
        assert(trim_front(field) =~= field.skip(field.len() as int));
        assert(trim_front(field).len() == 0);
        assert(trimmed(field) =~= bytes);
    } else {
        assert(field[0] == bytes[0]);
        lemma_trim_front_index(field, 0);
        assert(trim_front(field) =~= field);
        lemma_trim_back_zero_pad(bytes, limit - bytes.len());
        lemma_trim_back_index(bytes, bytes.len() as int);
        assert(trimmed(field) =~= bytes);
    }
    assert(decoded_field(field) == decode_utf8(bytes));
}

} // verus!
