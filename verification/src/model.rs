//! Structured views of a font's glyph-outline tables.
//!
//! The byte-level parsing of `glyf`, `loca`, `hmtx`, `head`, `maxp`,
//! `gvar`, `hvar` and `cvar` is the accessor layer's business; the engine
//! consumes the parsed shape of those tables as the plain values below.
//! `Outlines::wf` states exactly what the accessor layer guarantees about
//! them (matching lengths and 16-bit coordinate ranges).

use vstd::prelude::*;

verus! {

/// A two-dimensional coordinate. Depending on context the components are
/// raw font units or 26.6 fixed-point values.
#[derive(Clone, Copy, PartialEq, Eq, Structural, Debug)]
pub struct Point {
    pub x: i32,
    pub y: i32,
}

/// Bounding box of a glyph in font units, from its table header.
#[derive(Clone, Copy, PartialEq, Eq, Structural, Debug)]
pub struct Bounds {
    pub x_min: i32,
    pub y_min: i32,
    pub x_max: i32,
    pub y_max: i32,
}

/// Point flag bit marking an on-curve point.
pub const ON_CURVE: u8 = 0x01;

/// Point flag bit on a simple glyph's first point declaring overlapping contours.
pub const OVERLAP_SIMPLE: u8 = 0x40;

/// A simple glyph: its own contours, point by point.
#[derive(Clone, Debug)]
pub struct SimpleGlyph {
    pub bounds: Bounds,
    /// Raw coordinates in font units, one entry per outline point.
    pub points: Vec<Point>,
    /// Per-point flags (`ON_CURVE`, and `OVERLAP_SIMPLE` on the first point).
    pub flags: Vec<u8>,
    /// Index of each contour's last point, in increasing order.
    pub contour_ends: Vec<u16>,
    /// Hinting bytecode attached to this glyph.
    pub instructions: Vec<u8>,
}

/// A 2x2 transform attached to a component, entries in 2.14 fixed point.
#[derive(Clone, Copy, PartialEq, Eq, Structural, Debug)]
pub struct Transform {
    pub xx: i32,
    pub yx: i32,
    pub xy: i32,
    pub yy: i32,
}

/// How a component is positioned in its composite.
#[derive(Clone, Copy, PartialEq, Eq, Structural, Debug)]
pub enum Anchor {
    /// A literal offset in font units.
    Offset { x: i32, y: i32 },
    /// Align point `base` of the points loaded so far with point
    /// `component` of this component's own points.
    Aligned { base: usize, component: usize },
}

/// One component reference inside a composite glyph.
#[derive(Clone, Copy, PartialEq, Eq, Structural, Debug)]
pub struct Component {
    pub glyph_id: u16,
    pub anchor: Anchor,
    /// The component's own 2x2 transform, when it declares one.
    pub transform: Option<Transform>,
    /// Round the component offset's y to the pixel grid when hinting.
    pub round_to_grid: bool,
    /// This component's metrics override the composite's phantom points.
    pub use_my_metrics: bool,
    /// The component declares overlapping contours.
    pub overlap: bool,
    /// Scale the literal offset by the transform's magnitude heuristic.
    pub scaled_offset: bool,
}

/// A composite glyph: transformed references to other glyphs.
#[derive(Clone, Debug)]
pub struct CompositeGlyph {
    pub bounds: Bounds,
    pub components: Vec<Component>,
    /// Hinting bytecode attached to the composite itself.
    pub instructions: Vec<u8>,
}

/// A glyph table entry with outline data. An empty entry (a glyph with no
/// outline at all, such as a space) is held as `None` by the table.
#[derive(Clone, Debug)]
pub enum Glyph {
    Simple(SimpleGlyph),
    Composite(CompositeGlyph),
}

/// One `hmtx` record: advance width and left side bearing.
#[derive(Clone, Copy, PartialEq, Eq, Structural, Debug)]
pub struct LongMetric {
    pub advance: u16,
    pub lsb: i16,
}

/// One axis of a variation region, coordinates in 2.14 fixed point.
#[derive(Clone, Copy, PartialEq, Eq, Structural, Debug)]
pub struct RegionAxis {
    pub start: i32,
    pub peak: i32,
    pub end: i32,
}

/// A region of the normalized design space over which a delta set applies.
#[derive(Clone, Debug)]
pub struct Region {
    pub axes: Vec<RegionAxis>,
}

/// One tuple of per-point deltas for a glyph, already dense: one delta
/// per outline point plus the four phantom points. The accessor layer is
/// expected to have expanded sparse tuples (inferring the deltas of
/// unreferenced points) before handing the table over; a tuple whose
/// length does not match the glyph contributes nothing.
#[derive(Clone, Debug)]
pub struct GlyphDeltas {
    pub region: Region,
    pub deltas: Vec<Point>,
}

/// The `gvar` table: for each glyph id, its delta tuples.
#[derive(Clone, Debug)]
pub struct GvarTable {
    pub glyph_deltas: Vec<Vec<GlyphDeltas>>,
}

/// One scalar delta applying over a region, for metric variation.
#[derive(Clone, Debug)]
pub struct MetricDelta {
    pub region: Region,
    pub delta: i32,
}

/// The `hvar` table: per glyph id, delta sets for the advance width and,
/// when the font maps it, the left side bearing.
#[derive(Clone, Debug)]
pub struct HvarTable {
    pub advance: Vec<Vec<MetricDelta>>,
    pub lsb: Option<Vec<Vec<MetricDelta>>>,
}

/// The `cvar` table: delta sets for control-value-table entries, consumed
/// by the hint interpreter collaborator and carried through untouched.
#[derive(Clone, Debug)]
pub struct CvarTable {
    pub deltas: Vec<Vec<MetricDelta>>,
}

/// Scalar limits from `maxp`, as the accessor layer hands them over.
#[derive(Clone, Copy, PartialEq, Eq, Structural, Debug)]
pub struct MaxpLimits {
    pub max_function_defs: u16,
    pub max_instruction_defs: u16,
    pub max_twilight_points: u16,
    pub max_stack_elements: u16,
    pub max_storage: u16,
}

/// Everything the accessor layer hands over for one font. Required tables
/// are `Option` so that their absence can be observed; the aggregator
/// refuses construction when one is missing.
#[derive(Clone, Debug)]
pub struct FontData {
    /// Glyph outlines by glyph id (the merged view of `loca` and `glyf`).
    pub glyf: Option<Vec<Option<Glyph>>>,
    /// Horizontal metrics; may be shorter than the glyph count.
    pub hmtx: Option<Vec<LongMetric>>,
    /// Units per em from `head`.
    pub head_units_per_em: Option<u16>,
    /// Typographic ascender and descender in font units.
    pub ascender: i16,
    pub descender: i16,
    pub limits: MaxpLimits,
    pub gvar: Option<GvarTable>,
    pub hvar: Option<HvarTable>,
    pub cvar: Option<CvarTable>,
    /// Raw font program and control-value program bytes.
    pub fpgm: Vec<u8>,
    pub prep: Vec<u8>,
    /// Unscaled control values from `cvt `.
    pub cvt: Vec<i32>,
}

/// What the accessor layer guarantees of a parsed glyph: matching array
/// lengths and coordinates within the format's 16-bit ranges.
pub open spec fn wf_glyph(g: Glyph) -> bool {
    match g {
        Glyph::Simple(s) => {
            &&& s.points.len() == s.flags.len()
            &&& s.points.len() <= 0xFFFF
            &&& s.contour_ends.len() <= 0xFFFF
            &&& forall|i: int|
                0 <= i < s.points.len() ==> -0x8000 <= #[trigger] s.points[i].x <= 0x7FFF
                    && -0x8000 <= s.points[i].y <= 0x7FFF
            &&& -0x8000 <= s.bounds.x_min <= 0x7FFF
            &&& -0x8000 <= s.bounds.y_min <= 0x7FFF
            &&& -0x8000 <= s.bounds.x_max <= 0x7FFF
            &&& -0x8000 <= s.bounds.y_max <= 0x7FFF
        },
        Glyph::Composite(c) => {
            &&& c.components.len() <= 0xFFFF
            &&& forall|i: int|
                0 <= i < c.components.len() ==> wf_component(#[trigger] c.components[i])
            &&& -0x8000 <= c.bounds.x_min <= 0x7FFF
            &&& -0x8000 <= c.bounds.y_min <= 0x7FFF
            &&& -0x8000 <= c.bounds.x_max <= 0x7FFF
            &&& -0x8000 <= c.bounds.y_max <= 0x7FFF
        },
    }
}

pub open spec fn wf_component(c: Component) -> bool {
    &&& match c.anchor {
        Anchor::Offset { x, y } => -0x8000 <= x <= 0x7FFF && -0x8000 <= y <= 0x7FFF,
        Anchor::Aligned { base, component } => true,
    }
    &&& match c.transform {
        Some(t) => {
            &&& -0x8000 <= t.xx <= 0x7FFF
            &&& -0x8000 <= t.yx <= 0x7FFF
            &&& -0x8000 <= t.xy <= 0x7FFF
            &&& -0x8000 <= t.yy <= 0x7FFF
        },
        None => true,
    }
}

/// What the accessor layer guarantees of a whole glyph table.
pub open spec fn wf_glyphs(glyphs: Seq<Option<Glyph>>) -> bool {
    &&& glyphs.len() <= 0xFFFF
    &&& forall|i: int|
        0 <= i < glyphs.len() ==> match #[trigger] glyphs[i] {
            Some(g) => wf_glyph(g),
            None => true,
        }
}

} // verus!
