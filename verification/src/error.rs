//! Error kinds shared by every codec of the crate.

use vstd::prelude::*;

verus! {

/// What went wrong while decoding or encoding a module.
///
/// Signature mismatches are always fatal to a load call; structural
/// corruption that historical players tolerated (bad loop bounds, malformed
/// envelopes, truncated sample payloads) is normalized silently instead and
/// never surfaces here.
#[derive(Copy, Clone, Debug, PartialEq, Eq, Structural)]
pub enum CodecError {
    /// Magic bytes, signature or id string absent or wrong: the input is not
    /// a file of the expected format at all.
    FormatMismatch,
    /// A declared length or offset would index past the end of the buffer in
    /// a way that cannot be safely clamped.
    Truncated,
    /// A fixed-size structure failed to deserialize.
    Decode,
    /// A save-side failure.
    Encode,
}

} // verus!
