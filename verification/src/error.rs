//! The fixed error taxonomy of the engine. Every error aborts the whole
//! outline computation for its glyph; there is no partial success.

use vstd::prelude::*;

verus! {

#[derive(Clone, Copy, PartialEq, Eq, Structural, Debug)]
pub enum DrawError {
    /// Composite nesting exceeded the fixed limit at this glyph id; the
    /// defense against cyclic or pathologically deep composite graphs.
    RecursionLimitExceeded(u16),
    /// A required arena slice exceeds the caller-provided buffers; the
    /// arena is never grown mid-call.
    InsufficientMemory,
    /// A point-anchored component of this glyph named an out-of-range
    /// point index.
    InvalidAnchorPoint(u16, usize),
    /// The hint interpreter reported failure while pedantic hinting was
    /// requested for this glyph.
    HintingFailed(u16),
}

} // verus!
