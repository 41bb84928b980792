//! A piecewise-linear curve (time to value) controlling volume or panning
//! over a note's lifetime.

use vstd::prelude::*;

verus! {

/// Envelope point: `frame` for the abscissa, `value` for the ordinate.
#[derive(Copy, Clone, Debug, PartialEq, Eq, Structural)]
pub struct EnvelopePoint {
    /// Frame number of the point (X coordinate).
    pub frame: u16,
    /// Value of the point (Y coordinate), 0..=64 in XM files.
    pub value: u16,
}

impl Default for EnvelopePoint {
    fn default() -> (r: Self)
        ensures
            r == (EnvelopePoint { frame: 0, value: 0 }),
    {
        EnvelopePoint { frame: 0, value: 0 }
    }
}

/// An envelope: up to 12 points for XM compatibility, with optional sustain
/// point and loop region given as indices into `point`.
#[derive(Clone, Debug, PartialEq)]
pub struct Envelope {
    /// Whether the envelope is applied at all.
    pub enabled: bool,
    /// The points of the curve, frames strictly increasing by convention.
    pub point: Vec<EnvelopePoint>,
    /// Whether `sustain_point` is honoured.
    pub sustain_enabled: bool,
    /// Index in `point`.
    pub sustain_point: u8,
    /// Whether the loop region is honoured.
    pub loop_enabled: bool,
    /// Index in `point`.
    pub loop_start_point: u8,
    /// Index in `point`.
    pub loop_end_point: u8,
}

impl Default for Envelope {
    fn default() -> (r: Self)
        ensures
            r.spec_is_default(),
    {
        Envelope {
            enabled: false,
            point: Vec::new(),
            sustain_enabled: false,
            sustain_point: 0,
            loop_enabled: false,
            loop_start_point: 0,
            loop_end_point: 0,
        }
    }
}

impl Envelope {
    /// Two envelopes carry the same data: every field equal, the points
    /// compared element by element.
    pub open spec fn view_eq(self, o: Envelope) -> bool {
        &&& self.enabled == o.enabled
        &&& self.point@ == o.point@
        &&& self.sustain_enabled == o.sustain_enabled
        &&& self.sustain_point == o.sustain_point
        &&& self.loop_enabled == o.loop_enabled
        &&& self.loop_start_point == o.loop_start_point
        &&& self.loop_end_point == o.loop_end_point
    }

    /// The disabled, empty envelope.
    pub open spec fn spec_is_default(self) -> bool {
        &&& !self.enabled
        &&& self.point@.len() == 0
        &&& !self.sustain_enabled
        &&& self.sustain_point == 0
        &&& !self.loop_enabled
        &&& self.loop_start_point == 0
        &&& self.loop_end_point == 0
    }

    /// A loadable envelope shape: at most 12 points, sustain and loop
    /// indices within range, and the loop not reversed.
    pub open spec fn spec_shape_ok(self) -> bool {
        &&& self.point@.len() <= 12
        &&& self.sustain_point < self.point@.len()
        &&& self.loop_start_point < self.point@.len()
        &&& self.loop_end_point < self.point@.len()
        &&& self.loop_start_point <= self.loop_end_point
    }

    /// What loading keeps of an envelope: a well-shaped envelope unchanged,
    /// anything else replaced by the disabled default.
    pub open spec fn sanitizes_to(self, r: Envelope) -> bool {
        if self.spec_shape_ok() {
            r == self
        } else {
            r.spec_is_default()
        }
    }

    /// True when the envelope shape is malformed and must not propagate:
    /// more than 12 points, a sustain or loop index out of range, or a
    /// reversed loop.
    pub fn is_shape_nok(&self) -> (r: bool)
        ensures
            r == !self.spec_shape_ok(),
    {
        let n = self.point.len();
        self.point.len() > 12 || self.sustain_point as usize >= n || self.loop_start_point as usize
            >= n || self.loop_end_point as usize >= n || self.loop_start_point
            > self.loop_end_point
    }

    /// Replace a malformed envelope with the disabled default; keep a
    /// well-shaped one as it is. Malformed envelopes never propagate past
    /// loading.
    pub fn sanitize(self) -> (r: Envelope)
        ensures
            self.sanitizes_to(r),
    {
        if self.is_shape_nok() {
            Envelope::default()
        } else {
            self
        }
    }

    /// Sanitizing is idempotent: an envelope that one pass accepts or
    /// produces passes a second pass unchanged (up to the point contents),
    /// and an envelope whose sustain index is out of range comes back as the
    /// disabled default.
    pub proof fn lemma_sanitize_idempotent(e: Envelope, r1: Envelope, r2: Envelope)
        requires
            e.sanitizes_to(r1),
            r1.sanitizes_to(r2),
        ensures
            r2.view_eq(r1),
            e.sustain_point >= e.point@.len() ==> r1.spec_is_default(),
    {
        if e.spec_shape_ok() {
        } else {
            assert(!r1.spec_shape_ok());
            assert(r1.point@ =~= r2.point@);
        }
    }
}

} // verus!
