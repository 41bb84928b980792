//! The framing of the native container format: a 5-byte magic carrying
//! the major version, in front of a compressed serialized module.
//!
//! The library frames and checks the bytes; producing and reading the
//! compressed payload itself is the host's concern.

use vstd::prelude::*;

use crate::error::CodecError;

verus! {

/// Major version of the native container format.
pub const CONTAINER_MAJOR_VERSION: u8 = 1;

/// The 5 magic bytes a container opens with: `XMrs` and the ASCII digit
/// of the major version.
pub open spec fn container_magic() -> Seq<u8> {
    seq![0x58u8, 0x4Du8, 0x72u8, 0x73u8, (0x30 + CONTAINER_MAJOR_VERSION) as u8]
}

/// Frame a payload: the versioned magic followed by the payload bytes.
pub fn frame_container(payload: &[u8]) -> (r: Vec<u8>)
    ensures
        r@ == container_magic() + payload@,
{
    let mut out: Vec<u8> = Vec::new();
    out.push(0x58);
    out.push(0x4D);
    out.push(0x72);
    out.push(0x73);
    out.push(0x30 + CONTAINER_MAJOR_VERSION);
    let mut p = vstd::slice::slice_to_vec(payload);
    out.append(&mut p);
    proof {
        assert(out@ =~= container_magic() + payload@);
    }
    out
}

/// Check the magic of a container and return where the payload starts.
/// Anything whose first 5 bytes do not match the current version tag is
/// refused before any of the payload is looked at.
pub fn unframe_container(data: &[u8]) -> (r: Result<usize, CodecError>)
    ensures
        r matches Ok(p) ==> {
            &&& data@.len() >= 5
            &&& data@.subrange(0, 5) == container_magic()
            &&& p == 5
        },
        r matches Err(e) ==> {
            &&& (e == CodecError::Truncated <==> data@.len() < 5)
            &&& (e == CodecError::FormatMismatch <==> data@.len() >= 5 && data@.subrange(0, 5)
                != container_magic())
        },
        r is Err <==> (data@.len() < 5 || data@.subrange(0, 5) != container_magic()),
{
    if data.len() < 5 {
        return Err(CodecError::Truncated);
    }
    if data[0] != 0x58 || data[1] != 0x4D || data[2] != 0x72 || data[3] != 0x73 || data[4] != 0x30
        + CONTAINER_MAJOR_VERSION {
        proof {
            assert(data@.subrange(0, 5)[0] == data@[0]);
            assert(data@.subrange(0, 5)[1] == data@[1]);
            assert(data@.subrange(0, 5)[2] == data@[2]);
            assert(data@.subrange(0, 5)[3] == data@[3]);
            assert(data@.subrange(0, 5)[4] == data@[4]);
        }
        return Err(CodecError::FormatMismatch);
    }
    proof {
        assert(data@.subrange(0, 5) =~= container_magic());
    }
    Ok(5)
}

/// A framed payload always comes back out of its own frame.
pub proof fn lemma_container_roundtrip(payload: Seq<u8>)
    ensures
        (container_magic() + payload).subrange(0, 5) == container_magic(),
        (container_magic() + payload).subrange(5, (container_magic() + payload).len() as int)
            == payload,
{
    assert((container_magic() + payload).subrange(0, 5) =~= container_magic());
    assert((container_magic() + payload).subrange(
        5,
        (container_magic() + payload).len() as int,
    ) =~= payload);
}

} // verus!
