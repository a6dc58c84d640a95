//! The arena: fixed-capacity scratch state for exactly one scaling call,
//! owned by the caller, sized once from a sizing-pass result and never
//! resized mid-call. A fill operation that would exceed a buffer is a
//! hard failure, not a reallocation trigger.

use vstd::prelude::*;

use crate::model::Point;
use crate::outlines::Outline;

verus! {

/// Caller-owned buffers for one scaling call. The first three carry the
/// call's output; the scratch buffers hold one recursion level's unscaled
/// data, its interpolated deltas and its pre-hint snapshot; the rest is
/// the global hinting state handed to the interpreter collaborator.
pub struct OutlineMemory {
    /// Scaled output points, 26.6.
    pub scaled: Vec<Point>,
    /// Per-point output flags.
    pub flags: Vec<u8>,
    /// Output contour end indices into `scaled`.
    pub contours: Vec<usize>,
    /// One level's raw points plus phantom points, font units.
    pub unscaled: Vec<Point>,
    /// One level's interpolated per-point deltas.
    pub deltas: Vec<Point>,
    /// One composite level's per-component deltas.
    pub composite_deltas: Vec<Point>,
    /// Pre-hint snapshot of one level's scaled points.
    pub original_scaled: Vec<Point>,
    /// Control values for the interpreter.
    pub cvt: Vec<i32>,
    /// Storage slots for the interpreter.
    pub storage: Vec<i32>,
    /// Interpreter stack.
    pub stack: Vec<i32>,
    /// Twilight-zone point buffers and flags for the interpreter.
    pub twilight_scaled: Vec<Point>,
    pub twilight_original: Vec<Point>,
    pub twilight_unscaled: Vec<Point>,
    pub twilight_flags: Vec<u8>,
}

/// Two arenas of one shape: every buffer keeps its length. The hint
/// interpreter and the fill pass both preserve this.
pub open spec fn same_shape(a: OutlineMemory, b: OutlineMemory) -> bool {
    &&& a.scaled.len() == b.scaled.len()
    &&& a.flags.len() == b.flags.len()
    &&& a.contours.len() == b.contours.len()
    &&& a.unscaled.len() == b.unscaled.len()
    &&& a.deltas.len() == b.deltas.len()
    &&& a.composite_deltas.len() == b.composite_deltas.len()
    &&& a.original_scaled.len() == b.original_scaled.len()
    &&& a.cvt.len() == b.cvt.len()
    &&& a.storage.len() == b.storage.len()
    &&& a.stack.len() == b.stack.len()
    &&& a.twilight_scaled.len() == b.twilight_scaled.len()
    &&& a.twilight_original.len() == b.twilight_original.len()
    &&& a.twilight_unscaled.len() == b.twilight_unscaled.len()
    &&& a.twilight_flags.len() == b.twilight_flags.len()
}

/// `b` equals `a` on every buffer but `scaled`.
pub open spec fn only_scaled_differs(a: OutlineMemory, b: OutlineMemory) -> bool {
    b == OutlineMemory { scaled: b.scaled, ..a }
}

/// `b` equals `a` on every buffer but `unscaled`.
pub open spec fn only_unscaled_differs(a: OutlineMemory, b: OutlineMemory) -> bool {
    b == OutlineMemory { unscaled: b.unscaled, ..a }
}

/// `b` equals `a` on every buffer but `flags`.
pub open spec fn only_flags_differs(a: OutlineMemory, b: OutlineMemory) -> bool {
    b == OutlineMemory { flags: b.flags, ..a }
}

/// `b` equals `a` on every buffer but `contours`.
pub open spec fn only_contours_differs(a: OutlineMemory, b: OutlineMemory) -> bool {
    b == OutlineMemory { contours: b.contours, ..a }
}

/// `b` equals `a` on every buffer but `original_scaled`.
pub open spec fn only_original_differs(a: OutlineMemory, b: OutlineMemory) -> bool {
    b == OutlineMemory { original_scaled: b.original_scaled, ..a }
}

/// `b` equals `a` on every buffer but `composite_deltas`.
pub open spec fn only_composite_deltas_differs(a: OutlineMemory, b: OutlineMemory) -> bool {
    b == OutlineMemory { composite_deltas: b.composite_deltas, ..a }
}

impl OutlineMemory {
    /// Allocates an arena sized to one sizing-pass result. This is the
    /// one allocation of a scaling call; the engine itself never grows
    /// or frees these buffers.
    pub fn new(outline: &Outline) -> (r: OutlineMemory)
        ensures
            r.scaled.len() == outline.points,
            r.flags.len() == outline.points,
            r.contours.len() == outline.contours,
            r.unscaled.len() == outline.max_other_points,
            r.deltas.len() == outline.max_other_points,
            r.composite_deltas.len() == outline.max_component_delta_stack,
            r.original_scaled.len() == outline.max_other_points,
            r.cvt.len() == outline.cvt_count,
            r.storage.len() == outline.storage_count,
            r.stack.len() == outline.stack_count,
            r.twilight_scaled.len() == outline.twilight_count,
            r.twilight_original.len() == outline.twilight_count,
            r.twilight_unscaled.len() == outline.twilight_count,
            r.twilight_flags.len() == outline.twilight_count,
    {
        let zero = Point { x: 0, y: 0 };
        OutlineMemory {
            scaled: vec![zero; outline.points],
            flags: vec![0u8; outline.points],
            contours: vec![0usize; outline.contours],
            unscaled: vec![zero; outline.max_other_points],
            deltas: vec![zero; outline.max_other_points],
            composite_deltas: vec![zero; outline.max_component_delta_stack],
            original_scaled: vec![zero; outline.max_other_points],
            cvt: vec![0i32; outline.cvt_count],
            storage: vec![0i32; outline.storage_count],
            stack: vec![0i32; outline.stack_count],
            twilight_scaled: vec![zero; outline.twilight_count],
            twilight_original: vec![zero; outline.twilight_count],
            twilight_unscaled: vec![zero; outline.twilight_count],
            twilight_flags: vec![0u8; outline.twilight_count],
        }
    }
}

} // verus!
