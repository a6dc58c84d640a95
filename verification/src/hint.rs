//! The hint-interpreter collaborator's contract. The engine does not
//! execute bytecode itself; a caller attaches an interpreter that mutates
//! the freshly scaled points and phantom points in place and reports
//! success or failure. The one thing the engine relies on is that the
//! interpreter leaves every arena buffer at its length.

use vstd::prelude::*;

use crate::memory::{same_shape, OutlineMemory};
use crate::model::Point;

verus! {

/// The four phantom points: horizontal origin and advance, then vertical
/// origin and advance.
#[derive(Clone, Copy, PartialEq, Eq, Structural, Debug)]
pub struct Phantoms {
    pub pp0: Point,
    pub pp1: Point,
    pub pp2: Point,
    pub pp3: Point,
}

impl Phantoms {
    pub fn zero() -> (r: Phantoms)
        ensures
            r == (Phantoms {
                pp0: Point { x: 0, y: 0 },
                pp1: Point { x: 0, y: 0 },
                pp2: Point { x: 0, y: 0 },
                pp3: Point { x: 0, y: 0 },
            }),
    {
        let zero = Point { x: 0, y: 0 };
        Phantoms { pp0: zero, pp1: zero, pp2: zero, pp3: zero }
    }
}

/// Executes per-glyph bytecode against scaled and unscaled point buffers.
/// Implementations mutate `mem`'s point data and `phantom` freely but
/// must keep every buffer's length; the window arguments name the points
/// and contours of the glyph just loaded (the point window includes its 4
/// trailing phantom entries).
pub trait HintInterpreter {
    /// Whether backward-compatibility mode is active, consulted when
    /// deciding phantom-point rounding for un-instructed glyphs.
    fn backward_compatibility(&self) -> (r: bool);

    /// Runs `bytecode` for the glyph occupying the given windows of the
    /// arena; reports success.
    fn run(
        &mut self,
        glyph_id: u16,
        is_composite: bool,
        bytecode: &Vec<u8>,
        mem: &mut OutlineMemory,
        point_base: usize,
        point_count: usize,
        contour_base: usize,
        contour_count: usize,
        phantom: &mut Phantoms,
    ) -> (ok: bool)
        requires
            point_base + point_count <= old(mem).scaled.len(),
            point_base + point_count <= old(mem).flags.len(),
            contour_base + contour_count <= old(mem).contours.len(),
        ensures
            same_shape(*old(mem), *final(mem)),
    ;
}

/// The interpreter attached to plain, unhinted draws; it is never asked
/// to run and changes nothing.
pub struct NullInterpreter;

impl HintInterpreter for NullInterpreter {
    fn backward_compatibility(&self) -> (r: bool) {
        true
    }

    fn run(
        &mut self,
        glyph_id: u16,
        is_composite: bool,
        bytecode: &Vec<u8>,
        mem: &mut OutlineMemory,
        point_base: usize,
        point_count: usize,
        contour_base: usize,
        contour_count: usize,
        phantom: &mut Phantoms,
    ) -> (ok: bool) {
        true
    }
}

} // verus!
