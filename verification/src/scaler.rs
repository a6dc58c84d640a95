//! The scaler: the recursive two-pass loader that fills the arena with
//! scaled, variation-adjusted, optionally hinted point data (pass 2).
//!
//! State carried across one call: running point, contour and
//! component-delta counts (monotonically increasing, slicing arena
//! regions), the chosen scale factor and mode, the 4 current phantom
//! points, and the hinting configuration.

use vstd::prelude::*;

use crate::error::DrawError;
use crate::fixed::{
    add32, floor_div, mul14, round26, sat32, spec_mul14, spec_mul26, spec_round26, sub32, to26,
};
use crate::hint::{HintInterpreter, Phantoms};
use crate::memory::{
    only_contours_differs, only_flags_differs, only_original_differs, only_scaled_differs,
    only_unscaled_differs, same_shape, OutlineMemory,
};
use crate::model::{
    Anchor, Bounds, Component, CompositeGlyph, Glyph, MetricDelta, Point, SimpleGlyph,
    Transform,
};
use crate::outlines::{
    comps_size, glyph_at, glyph_size, sat_usize, spec_compute_scale, spec_metric_for, Outline,
    Outlines, COMPOSITE_RECURSION_LIMIT,
};
use crate::variation::{fill_point_deltas, metric_delta, spec_metric_delta};

verus! {

/// The origin point.
pub open spec fn zero_pt() -> Point {
    Point { x: 0, y: 0 }
}

/// One coordinate taken from font units to 26.6: the interpolated delta
/// is added in font-unit space, then the sum is scaled by the 26.6
/// factor, or, in unscaled mode, reinterpreted with the raw integer as
/// its whole part.
pub open spec fn spec_scale_coord(v: int, d: int, scale: int, is_scaled: bool) -> int {
    if is_scaled {
        spec_mul26(sat32(v + d), scale)
    } else {
        sat32(sat32(v + d) * 64)
    }
}

pub open spec fn spec_scale_pt(p: Point, d: Point, scale: int, is_scaled: bool) -> Point {
    Point {
        x: spec_scale_coord(p.x as int, d.x as int, scale, is_scaled) as i32,
        y: spec_scale_coord(p.y as int, d.y as int, scale, is_scaled) as i32,
    }
}

pub fn scale_pt(p: Point, d: Point, scale: i32, is_scaled: bool) -> (r: Point)
    ensures
        r == spec_scale_pt(p, d, scale as int, is_scaled),
{
    let ux = add32(p.x, d.x);
    let uy = add32(p.y, d.y);
    if is_scaled {
        Point { x: crate::fixed::mul26(ux, scale), y: crate::fixed::mul26(uy, scale) }
    } else {
        Point { x: to26(ux), y: to26(uy) }
    }
}

/// The bounding box any glyph kind carries.
pub open spec fn glyph_bounds(g: Glyph) -> Bounds {
    match g {
        Glyph::Simple(s) => s.bounds,
        Glyph::Composite(c) => c.bounds,
    }
}

/// The advance-delta sets `hvar` holds for a glyph; none past its table.
pub open spec fn hvar_advance_sets(o: Outlines, gid: u16) -> Seq<MetricDelta> {
    match o.hvar {
        Some(h) => if gid < h.advance.len() {
            h.advance[gid as int]@
        } else {
            Seq::empty()
        },
        None => Seq::empty(),
    }
}

/// The side-bearing delta sets, present only when the font maps them.
pub open spec fn hvar_lsb_sets(o: Outlines, gid: u16) -> Seq<MetricDelta> {
    match o.hvar {
        Some(h) => match h.lsb {
            Some(l) => if gid < l.len() {
                l[gid as int]@
            } else {
                Seq::empty()
            },
            None => Seq::empty(),
        },
        None => Seq::empty(),
    }
}

/// The variation-adjusted advance width: the clamped `hmtx` lookup plus
/// the interpolated `hvar` delta, truncated.
pub open spec fn spec_advance(o: Outlines, coords: Seq<i32>, gid: u16) -> int {
    let base = spec_metric_for(o.metrics@, gid).advance as int;
    if o.hvar is Some {
        sat32(base + spec_metric_delta(coords, hvar_advance_sets(o, gid)))
    } else {
        base
    }
}

/// The variation-adjusted left side bearing; adjusted only when the font
/// maps side bearings in `hvar`.
pub open spec fn spec_lsb(o: Outlines, coords: Seq<i32>, gid: u16) -> int {
    let base = spec_metric_for(o.metrics@, gid).lsb as int;
    if has_lsb_mapping(o) {
        sat32(base + spec_metric_delta(coords, hvar_lsb_sets(o, gid)))
    } else {
        base
    }
}

pub open spec fn has_lsb_mapping(o: Outlines) -> bool {
    match o.hvar {
        Some(h) => h.lsb is Some,
        None => false,
    }
}

/// The four unscaled phantom points of a glyph: horizontal origin at
/// `x_min - lsb`, horizontal advance one advance width further, vertical
/// origin at `y_max` plus the top bearing `ascender - y_max`, vertical
/// advance one `ascender - descender` below it.
pub open spec fn spec_unscaled_phantoms(
    bounds: Bounds,
    lsb: int,
    advance: int,
    ascender: int,
    descender: int,
) -> Phantoms {
    let pp0x = sat32(bounds.x_min - lsb);
    let vorigin = sat32(bounds.y_max + sat32(ascender - bounds.y_max));
    let vadvance = sat32(ascender - descender);
    Phantoms {
        pp0: Point { x: pp0x as i32, y: 0 },
        pp1: Point { x: sat32(pp0x + advance) as i32, y: 0 },
        pp2: Point { x: 0, y: vorigin as i32 },
        pp3: Point { x: 0, y: sat32(vorigin - vadvance) as i32 },
    }
}

/// The phantom points `load` computes for a present glyph before
/// dispatching on its kind.
pub open spec fn spec_glyph_phantoms(o: Outlines, coords: Seq<i32>, g: Glyph, gid: u16)
    -> Phantoms {
    spec_unscaled_phantoms(
        glyph_bounds(g),
        spec_lsb(o, coords, gid),
        spec_advance(o, coords, gid),
        o.ascender as int,
        o.descender as int,
    )
}

/// Every phantom point scaled, no deltas applied.
pub open spec fn spec_scaled_phantoms(ph: Phantoms, scale: int, is_scaled: bool) -> Phantoms {
    Phantoms {
        pp0: spec_scale_pt(ph.pp0, zero_pt(), scale, is_scaled),
        pp1: spec_scale_pt(ph.pp1, zero_pt(), scale, is_scaled),
        pp2: spec_scale_pt(ph.pp2, zero_pt(), scale, is_scaled),
        pp3: spec_scale_pt(ph.pp3, zero_pt(), scale, is_scaled),
    }
}

/// One point rounded to the nearest whole pixel on both axes.
pub open spec fn spec_round_pt(p: Point) -> Point {
    Point { x: spec_round26(p.x as int) as i32, y: spec_round26(p.y as int) as i32 }
}

fn round_pt(p: Point) -> (r: Point)
    ensures
        r == spec_round_pt(p),
{
    Point { x: round26(p.x), y: round26(p.y) }
}

/// No per-point variation applies: the font has no `gvar` or the caller
/// asked for the default position.
pub open spec fn no_var(o: Outlines, coords: Seq<i32>) -> bool {
    o.gvar is None || coords.len() == 0
}

fn advance_for(o: &Outlines, coords: &Vec<i32>, gid: u16) -> (r: i32)
    requires
        forall|i: int| 0 <= i < coords@.len() ==> -0x4000 <= #[trigger] coords@[i] <= 0x4000,
    ensures
        r == spec_advance(*o, coords@, gid),
{
    let m = o.metric_for(gid);
    match &o.hvar {
        Some(h) => {
            let d: i32 = if (gid as usize) < h.advance.len() {
                metric_delta(coords, &h.advance[gid as usize])
            } else {
                0
            };
            add32(m.advance as i32, d)
        },
        None => m.advance as i32,
    }
}

fn lsb_for(o: &Outlines, coords: &Vec<i32>, gid: u16) -> (r: i32)
    requires
        forall|i: int| 0 <= i < coords@.len() ==> -0x4000 <= #[trigger] coords@[i] <= 0x4000,
    ensures
        r == spec_lsb(*o, coords@, gid),
{
    let m = o.metric_for(gid);
    match &o.hvar {
        Some(h) => match &h.lsb {
            Some(l) => {
                let d: i32 = if (gid as usize) < l.len() {
                    metric_delta(coords, &l[gid as usize])
                } else {
                    0
                };
                add32(m.lsb as i32, d)
            },
            None => m.lsb as i32,
        },
        None => m.lsb as i32,
    }
}

fn glyph_phantoms(o: &Outlines, coords: &Vec<i32>, bounds: Bounds, gid: u16) -> (r: Phantoms)
    requires
        forall|i: int| 0 <= i < coords@.len() ==> -0x4000 <= #[trigger] coords@[i] <= 0x4000,
    ensures
        r == spec_unscaled_phantoms(
            bounds,
            spec_lsb(*o, coords@, gid),
            spec_advance(*o, coords@, gid),
            o.ascender as int,
            o.descender as int,
        ),
{
    let lsb = lsb_for(o, coords, gid);
    let advance = advance_for(o, coords, gid);
    let pp0x = sub32(bounds.x_min, lsb);
    let vorigin = add32(bounds.y_max, sub32(o.ascender as i32, bounds.y_max));
    let vadvance = sub32(o.ascender as i32, o.descender as i32);
    Phantoms {
        pp0: Point { x: pp0x, y: 0 },
        pp1: Point { x: add32(pp0x, advance), y: 0 },
        pp2: Point { x: 0, y: vorigin },
        pp3: Point { x: 0, y: sub32(vorigin, vadvance) },
    }
}

/// The pass-2 output: windows into the caller's arena (the first
/// `point_count` scaled points, flags, and the first `contour_count`
/// contour end indices) plus the final 4 phantom points.
#[derive(Clone, Copy, PartialEq, Eq, Structural, Debug)]
pub struct ScaledOutline {
    pub point_count: usize,
    pub contour_count: usize,
    pub phantom: Phantoms,
}

/// Fills the unscaled scratch with a simple glyph's raw points followed
/// by the current phantom points.
fn fill_unscaled(mem: &mut OutlineMemory, points: &Vec<Point>, ph: Phantoms)
    requires
        points@.len() + 4 <= old(mem).unscaled.len(),
    ensures
        only_unscaled_differs(*old(mem), *final(mem)),
        final(mem).unscaled@.len() == old(mem).unscaled@.len(),
        forall|i: int|
            0 <= i < points@.len() ==> #[trigger] final(mem).unscaled@[i] == points@[i],
        final(mem).unscaled@[points@.len() as int] == ph.pp0,
        final(mem).unscaled@[points@.len() as int + 1] == ph.pp1,
        final(mem).unscaled@[points@.len() as int + 2] == ph.pp2,
        final(mem).unscaled@[points@.len() as int + 3] == ph.pp3,
{
    let n: usize = points.len();
    let mut i: usize = 0;
    while i < n
        invariant
            0 <= i <= n,
            n == points@.len(),
            n + 4 <= mem.unscaled.len(),
            only_unscaled_differs(*old(mem), *mem),
            mem.unscaled@.len() == old(mem).unscaled@.len(),
            forall|k: int| 0 <= k < i ==> #[trigger] mem.unscaled@[k] == points@[k],
        decreases n - i,
    {
        mem.unscaled[i] = points[i];
        i = i + 1;
    }
    mem.unscaled[n] = ph.pp0;
    mem.unscaled[n + 1] = ph.pp1;
    mem.unscaled[n + 2] = ph.pp2;
    mem.unscaled[n + 3] = ph.pp3;
}

/// Copies a simple glyph's contour end indices into the arena at the
/// running contour offset, glyph-local; the shift by the running point
/// base happens after hinting, as the interpreter works on local indices.
fn fill_contours(mem: &mut OutlineMemory, ends: &Vec<u16>, cbase: usize)
    requires
        cbase + ends@.len() <= old(mem).contours.len(),
    ensures
        only_contours_differs(*old(mem), *final(mem)),
        final(mem).contours@.len() == old(mem).contours@.len(),
        forall|j: int|
            0 <= j < old(mem).contours@.len() && !(cbase <= j < cbase + ends@.len())
                ==> #[trigger] final(mem).contours@[j] == old(mem).contours@[j],
        forall|j: int|
            cbase <= j < cbase + ends@.len() ==> #[trigger] final(mem).contours@[j]
                == ends@[j - cbase] as usize,
{
    let m: usize = ends.len();
    let mut k: usize = 0;
    while k < m
        invariant
            0 <= k <= m,
            m == ends@.len(),
            cbase + m <= mem.contours.len(),
            only_contours_differs(*old(mem), *mem),
            mem.contours@.len() == old(mem).contours@.len(),
            forall|j: int|
                0 <= j < old(mem).contours@.len() && !(cbase <= j < cbase + m)
                    ==> #[trigger] mem.contours@[j] == old(mem).contours@[j],
            forall|j: int|
                cbase <= j < cbase + k ==> #[trigger] mem.contours@[j] == ends@[j - cbase]
                    as usize,
        decreases m - k,
    {
        mem.contours[cbase + k] = ends[k] as usize;
        k = k + 1;
    }
}

/// Folds the interpolated deltas into the unscaled scratch, rounded to
/// font units, so the interpreter sees the variation-adjusted outline.
fn apply_deltas_to_unscaled(mem: &mut OutlineMemory, total: usize)
    requires
        total <= old(mem).unscaled.len(),
        total <= old(mem).deltas.len(),
    ensures
        only_unscaled_differs(*old(mem), *final(mem)),
        final(mem).unscaled@.len() == old(mem).unscaled@.len(),
        forall|j: int|
            0 <= j < total ==> #[trigger] final(mem).unscaled@[j] == (Point {
                x: sat32(old(mem).unscaled@[j].x + old(mem).deltas@[j].x) as i32,
                y: sat32(old(mem).unscaled@[j].y + old(mem).deltas@[j].y) as i32,
            }),
{
    let mut i: usize = 0;
    while i < total
        invariant
            0 <= i <= total,
            total <= mem.unscaled.len(),
            total <= mem.deltas.len(),
            only_unscaled_differs(*old(mem), *mem),
            mem.unscaled@.len() == old(mem).unscaled@.len(),
            mem.deltas == old(mem).deltas,
            forall|j: int|
                i <= j < total ==> #[trigger] mem.unscaled@[j] == old(mem).unscaled@[j],
            forall|j: int|
                0 <= j < i ==> #[trigger] mem.unscaled@[j] == (Point {
                    x: sat32(old(mem).unscaled@[j].x + old(mem).deltas@[j].x) as i32,
                    y: sat32(old(mem).unscaled@[j].y + old(mem).deltas@[j].y) as i32,
                }),
        decreases total - i,
    {
        let p = mem.unscaled[i];
        let d = mem.deltas[i];
        mem.unscaled[i] = Point { x: add32(p.x, d.x), y: add32(p.y, d.y) };
        i = i + 1;
    }
}

/// Copies a simple glyph's point flags into the arena at the running
/// point offset; the 4 phantom entries carry no flags.
fn fill_flags(mem: &mut OutlineMemory, flags: &Vec<u8>, pbase: usize)
    requires
        pbase + flags@.len() + 4 <= old(mem).flags.len(),
    ensures
        only_flags_differs(*old(mem), *final(mem)),
        final(mem).flags@.len() == old(mem).flags@.len(),
        forall|j: int|
            0 <= j < old(mem).flags@.len() && !(pbase <= j < pbase + flags@.len() + 4)
                ==> #[trigger] final(mem).flags@[j] == old(mem).flags@[j],
        forall|j: int|
            pbase <= j < pbase + flags@.len() ==> #[trigger] final(mem).flags@[j] == flags@[j
                - pbase],
        forall|j: int|
            pbase + flags@.len() <= j < pbase + flags@.len() + 4 ==> #[trigger] final(mem).flags@[j] == 0u8,
{
    let n: usize = flags.len();
    let mut i: usize = 0;
    while i < n
        invariant
            0 <= i <= n,
            n == flags@.len(),
            pbase + n + 4 <= mem.flags.len(),
            only_flags_differs(*old(mem), *mem),
            mem.flags@.len() == old(mem).flags@.len(),
            forall|j: int|
                0 <= j < old(mem).flags@.len() && !(pbase <= j < pbase + i)
                    ==> #[trigger] mem.flags@[j] == old(mem).flags@[j],
            forall|j: int|
                pbase <= j < pbase + i ==> #[trigger] mem.flags@[j] == flags@[j - pbase],
        decreases n - i,
    {
        mem.flags[pbase + i] = flags[i];
        i = i + 1;
    }
    mem.flags[pbase + n] = 0;
    mem.flags[pbase + n + 1] = 0;
    mem.flags[pbase + n + 2] = 0;
    mem.flags[pbase + n + 3] = 0;
}

/// Scales the unscaled scratch window into the arena's scaled buffer at
/// the running point offset, adding each point's interpolated delta
/// first when deltas apply.
fn scale_window(
    mem: &mut OutlineMemory,
    pbase: usize,
    total: usize,
    has_deltas: bool,
    scale: i32,
    is_scaled: bool,
)
    requires
        total <= old(mem).unscaled.len(),
        has_deltas ==> total <= old(mem).deltas.len(),
        pbase + total <= old(mem).scaled.len(),
    ensures
        only_scaled_differs(*old(mem), *final(mem)),
        final(mem).scaled@.len() == old(mem).scaled@.len(),
        forall|j: int|
            0 <= j < old(mem).scaled@.len() && !(pbase <= j < pbase + total)
                ==> #[trigger] final(mem).scaled@[j] == old(mem).scaled@[j],
        forall|j: int|
            pbase <= j < pbase + total ==> #[trigger] final(mem).scaled@[j] == spec_scale_pt(
                old(mem).unscaled@[j - pbase],
                if has_deltas {
                    old(mem).deltas@[j - pbase]
                } else {
                    zero_pt()
                },
                scale as int,
                is_scaled,
            ),
{
    let mut i: usize = 0;
    while i < total
        invariant
            0 <= i <= total,
            total <= mem.unscaled.len(),
            has_deltas ==> total <= mem.deltas.len(),
            pbase + total <= mem.scaled.len(),
            only_scaled_differs(*old(mem), *mem),
            mem.scaled@.len() == old(mem).scaled@.len(),
            forall|j: int|
                0 <= j < old(mem).scaled@.len() && !(pbase <= j < pbase + total)
                    ==> #[trigger] mem.scaled@[j] == old(mem).scaled@[j],
            forall|j: int|
                pbase <= j < pbase + i ==> #[trigger] mem.scaled@[j] == spec_scale_pt(
                    old(mem).unscaled@[j - pbase],
                    if has_deltas {
                        old(mem).deltas@[j - pbase]
                    } else {
                        zero_pt()
                    },
                    scale as int,
                    is_scaled,
                ),
        decreases total - i,
    {
        let d: Point = if has_deltas {
            mem.deltas[i]
        } else {
            Point { x: 0, y: 0 }
        };
        let sp = scale_pt(mem.unscaled[i], d, scale, is_scaled);
        mem.scaled[pbase + i] = sp;
        i = i + 1;
    }
}

/// Snapshots the freshly scaled window as "original scaled", the
/// pre-hint state the interpreter may consult.
fn snapshot_original(mem: &mut OutlineMemory, pbase: usize, total: usize)
    requires
        pbase + total <= old(mem).scaled.len(),
        total <= old(mem).original_scaled.len(),
    ensures
        only_original_differs(*old(mem), *final(mem)),
        final(mem).original_scaled@.len() == old(mem).original_scaled@.len(),
        forall|i: int|
            0 <= i < total ==> #[trigger] final(mem).original_scaled@[i] == old(mem).scaled@[pbase + i],
{
    let mut i: usize = 0;
    while i < total
        invariant
            0 <= i <= total,
            pbase + total <= mem.scaled.len(),
            total <= mem.original_scaled.len(),
            only_original_differs(*old(mem), *mem),
            mem.original_scaled@.len() == old(mem).original_scaled@.len(),
            mem.scaled == old(mem).scaled,
            forall|k: int|
                0 <= k < i ==> #[trigger] mem.original_scaled@[k] == old(mem).scaled@[pbase
                    + k],
        decreases total - i,
    {
        let p = mem.scaled[pbase + i];
        mem.original_scaled[i] = p;
        i = i + 1;
    }
}


/// The composite ends with a component that declares its metrics
/// authoritative and references a simple glyph. In that case the
/// composite's final phantom points are that component's own.
pub open spec fn last_component_metrics(glyphs: Seq<Option<Glyph>>, c: CompositeGlyph) -> bool {
    &&& c.components@.len() > 0
    &&& c.components@[c.components@.len() - 1].use_my_metrics
    &&& glyph_at(glyphs, c.components@[c.components@.len() - 1].glyph_id) matches Some(
        Glyph::Simple(cs),
    )
}

/// The phantom points such a final component leaves behind.
pub open spec fn last_component_phantoms(
    o: Outlines,
    coords: Seq<i32>,
    c: CompositeGlyph,
    scale: int,
    is_scaled: bool,
) -> Phantoms
    recommends
        last_component_metrics(o.glyphs@, c),
{
    let lastc = c.components@[c.components@.len() - 1];
    match glyph_at(o.glyphs@, lastc.glyph_id) {
        Some(Glyph::Simple(cs)) => spec_scaled_phantoms(
            spec_glyph_phantoms(o, coords, Glyph::Simple(cs), lastc.glyph_id),
            scale,
            is_scaled,
        ),
        _ => Phantoms {
            pp0: Point { x: 0, y: 0 },
            pp1: Point { x: 0, y: 0 },
            pp2: Point { x: 0, y: 0 },
            pp3: Point { x: 0, y: 0 },
        },
    }
}


/// The arena meets a subtree's needs by the sizing pass's own measure,
/// taken at running offsets `pc`, `cc` and `dc`, with totals small
/// enough (under 2^31) that no count saturates.
pub open spec fn arena_fits(
    m: OutlineMemory,
    pc: int,
    cc: int,
    dc: int,
    info: crate::outlines::SizeInfo,
) -> bool {
    &&& pc + info.points + 4 <= m.scaled.len()
    &&& pc + info.points + 4 <= m.flags.len()
    &&& cc + info.contours <= m.contours.len()
    &&& info.max_other <= m.unscaled.len()
    &&& info.max_other <= m.deltas.len()
    &&& info.max_other <= m.original_scaled.len()
    &&& dc + info.stack <= m.composite_deltas.len()
    &&& info.points <= 0x7FFF_FFFF
    &&& info.contours <= 0x7FFF_FFFF
    &&& info.max_other <= 0x7FFF_FFFF
    &&& info.stack <= 0x7FFF_FFFF
}


/// Every point-to-point anchor in a subtree names points that exist: the
/// base index among the points gathered before its component at that
/// level, the component index among the child's own points. Offset
/// anchors constrain nothing. Past the recursion limit the walk fails
/// before any anchor is read, so nothing more is demanded there.
pub open spec fn anchors_ok(glyphs: Seq<Option<Glyph>>, gid: u16, depth: int) -> bool
    decreases COMPOSITE_RECURSION_LIMIT + 1 - depth, 0int, 0int,
    when 0 <= depth <= COMPOSITE_RECURSION_LIMIT + 1
{
    match glyph_at(glyphs, gid) {
        Some(Glyph::Composite(c)) => {
            if depth > COMPOSITE_RECURSION_LIMIT {
                true
            } else {
                comps_anchors_ok(glyphs, c.components@, c.components@.len() as int, depth + 1)
            }
        },
        _ => true,
    }
}

pub open spec fn comps_anchors_ok(
    glyphs: Seq<Option<Glyph>>,
    comps: Seq<Component>,
    n: int,
    depth: int,
) -> bool
    decreases COMPOSITE_RECURSION_LIMIT + 1 - depth, 1int, n,
    when 0 <= depth <= COMPOSITE_RECURSION_LIMIT + 1 && n <= comps.len()
{
    if n <= 0 {
        true
    } else {
        &&& comps_anchors_ok(glyphs, comps, n - 1, depth)
        &&& anchors_ok(glyphs, comps[n - 1].glyph_id, depth)
        &&& match comps[n - 1].anchor {
            Anchor::Offset { x, y } => true,
            Anchor::Aligned { base, component } => match (
                comps_size(glyphs, comps, n - 1, depth),
                glyph_size(glyphs, comps[n - 1].glyph_id, depth),
            ) {
                (Ok(prefix), Ok(child)) => base < prefix.points && component < child.points,
                _ => true,
            },
        }
    }
}

/// Anchor validity of a fold covers every prefix.
pub proof fn lemma_comps_anchors_prefix(
    glyphs: Seq<Option<Glyph>>,
    comps: Seq<Component>,
    i: int,
    n: int,
    depth: int,
)
    requires
        0 <= i <= n <= comps.len(),
        0 <= depth <= COMPOSITE_RECURSION_LIMIT + 1,
        comps_anchors_ok(glyphs, comps, n, depth),
    ensures
        comps_anchors_ok(glyphs, comps, i, depth),
    decreases n - i,
{
    if i < n {
        lemma_comps_anchors_prefix(glyphs, comps, i, n - 1, depth);
    }
}

pub(crate) struct Scaler {
    pub scale: i32,
    pub is_scaled: bool,
    pub is_hinted: bool,
    pub pedantic: bool,
    pub point_count: usize,
    pub contour_count: usize,
    pub component_delta_count: usize,
    pub phantom: Phantoms,
}

impl Scaler {
    /// The configuration half of the state, unchanged by loading.
    pub(crate) open spec fn same_config(self, other: Scaler) -> bool {
        &&& self.scale == other.scale
        &&& self.is_scaled == other.is_scaled
        &&& self.is_hinted == other.is_hinted
        &&& self.pedantic == other.pedantic
    }

    /// Loads one simple glyph: slices point, flag and contour ranges out
    /// of the arena at the running offsets, fills unscaled data and
    /// deltas, scales, commits phantom points, and runs the interpreter
    /// when hinting is requested.
    #[verifier::rlimit(60)]
    pub(crate) fn load_simple<H: HintInterpreter>(
        &mut self,
        o: &Outlines,
        coords: &Vec<i32>,
        mem: &mut OutlineMemory,
        s: &SimpleGlyph,
        gid: u16,
        hinter: &mut H,
    ) -> (r: Result<(), DrawError>)
        requires
            s.points@.len() == s.flags@.len(),
            s.points@.len() <= 0xFFFF,
            s.contour_ends@.len() <= 0xFFFF,
            forall|i: int| 0 <= i < coords@.len() ==> -0x4000 <= #[trigger] coords@[i] <= 0x4000,
        ensures
            same_shape(*old(mem), *final(mem)),
            old(self).same_config(*final(self)),
            final(self).component_delta_count == old(self).component_delta_count,
            final(self).point_count >= old(self).point_count,
            final(self).contour_count >= old(self).contour_count,
            r is Err ==> final(self).point_count == old(self).point_count && final(self).contour_count == old(self).contour_count,
            ({
                &&& old(self).point_count + s.points@.len() + 4 <= old(mem).scaled.len()
                &&& old(self).point_count + s.points@.len() + 4 <= old(mem).flags.len()
                &&& old(self).contour_count + s.contour_ends@.len() <= old(mem).contours.len()
                &&& s.points@.len() + 4 <= old(mem).unscaled.len()
                &&& s.points@.len() + 4 <= old(mem).deltas.len()
                &&& s.points@.len() + 4 <= old(mem).original_scaled.len()
            }) ==> r != Err::<(), DrawError>(DrawError::InsufficientMemory),
            ({
                &&& old(self).point_count + s.points@.len() + 4 <= old(mem).scaled.len()
                &&& old(self).point_count + s.points@.len() + 4 <= old(mem).flags.len()
                &&& old(self).contour_count + s.contour_ends@.len() <= old(mem).contours.len()
                &&& s.points@.len() + 4 <= old(mem).unscaled.len()
                &&& s.points@.len() + 4 <= old(mem).deltas.len()
                &&& s.points@.len() + 4 <= old(mem).original_scaled.len()
                &&& !(old(self).is_hinted && old(self).pedantic)
            }) ==> r is Ok,
            match r {
                Ok(()) => {
                    &&& final(self).point_count == old(self).point_count + s.points@.len()
                    &&& final(self).contour_count == old(self).contour_count
                        + s.contour_ends@.len()
                    &&& old(self).point_count + s.points@.len() + 4 <= old(mem).scaled.len()
                    &&& final(self).point_count + 4 <= final(mem).scaled.len()
                    &&& final(self).contour_count <= final(mem).contours.len()
                    &&& !old(self).is_hinted ==> {
                        &&& forall|j: int|
                            old(self).contour_count <= j < old(self).contour_count
                                + s.contour_ends@.len() ==> #[trigger] final(mem).contours@[j]
                                == sat_usize(
                                s.contour_ends@[j - old(self).contour_count] + old(self).point_count,
                            )
                        &&& forall|j: int|
                            old(self).point_count <= j < old(self).point_count
                                + s.points@.len() ==> #[trigger] final(mem).flags@[j]
                                == s.flags@[j - old(self).point_count]
                        &&& no_var(*o, coords@) ==> {
                            &&& forall|j: int|
                                old(self).point_count <= j < old(self).point_count
                                    + s.points@.len() ==> #[trigger] final(mem).scaled@[j]
                                    == spec_scale_pt(
                                    s.points@[j - old(self).point_count],
                                    zero_pt(),
                                    old(self).scale as int,
                                    old(self).is_scaled,
                                )
                            &&& final(self).phantom == spec_scaled_phantoms(
                                old(self).phantom,
                                old(self).scale as int,
                                old(self).is_scaled,
                            )
                        }
                    }
                },
                Err(e) => {
                    ||| e == DrawError::InsufficientMemory
                    ||| (e == DrawError::HintingFailed(gid) && old(self).is_hinted && old(self).pedantic)
                },
            },
    {
        let n: usize = s.points.len();
        let ends: usize = s.contour_ends.len();
        let pbase: usize = self.point_count;
        let cbase: usize = self.contour_count;
        let total: usize = n + 4;
        // Slices out of the arena at the running offsets; exceeding any
        // buffer is fatal, the arena never grows.
        if pbase > mem.scaled.len() || total > mem.scaled.len() - pbase {
            return Err(DrawError::InsufficientMemory);
        }
        if pbase > mem.flags.len() || total > mem.flags.len() - pbase {
            return Err(DrawError::InsufficientMemory);
        }
        if cbase > mem.contours.len() || ends > mem.contours.len() - cbase {
            return Err(DrawError::InsufficientMemory);
        }
        if total > mem.unscaled.len() || total > mem.deltas.len() || total
            > mem.original_scaled.len() {
            return Err(DrawError::InsufficientMemory);
        }
        // Raw coordinates, then the 4 phantom points, into unscaled scratch.
        fill_unscaled(mem, &s.points, self.phantom);
        // Contour end indices, glyph-local for now; they are shifted to
        // the full per-composite point array after hinting.
        fill_contours(mem, &s.contour_ends, cbase);
        // Per-point flags; the phantom entries carry none.
        fill_flags(mem, &s.flags, pbase);
        // Interpolated deltas over the full point set; absent or
        // non-applicable variation data degrades to no deltas.
        let mut has_deltas: bool = false;
        if coords.len() > 0 {
            match &o.gvar {
                Some(g) => {
                    if (gid as usize) < g.glyph_deltas.len() {
                        has_deltas = fill_point_deltas(
                            coords,
                            &g.glyph_deltas[gid as usize],
                            total,
                            &mut mem.deltas,
                            0,
                        );
                    }
                },
                None => {},
            }
        }
        // Scale, or reinterpret raw integers as 26.6 in unscaled mode.
        scale_window(mem, pbase, total, has_deltas, self.scale, self.is_scaled);
        if has_deltas && self.is_hinted {
            // Hinting reads the unscaled points too, so they pick up the
            // rounded deltas.
            apply_deltas_to_unscaled(mem, total);
        }
        // Phantom commit. With variable metrics present and hinting
        // active, phantoms 0 and 1 are scaled directly rather than read
        // back, so the variation delta already folded into the advance
        // and side bearing is not applied twice.
        if self.is_hinted && matches!(o.hvar, Some(_)) {
            let zero = Point { x: 0, y: 0 };
            self.phantom = Phantoms {
                pp0: scale_pt(self.phantom.pp0, zero, self.scale, self.is_scaled),
                pp1: scale_pt(self.phantom.pp1, zero, self.scale, self.is_scaled),
                pp2: self.phantom.pp2,
                pp3: self.phantom.pp3,
            };
        } else {
            self.phantom = Phantoms {
                pp0: mem.scaled[pbase + n],
                pp1: mem.scaled[pbase + n + 1],
                pp2: mem.scaled[pbase + n + 2],
                pp3: mem.scaled[pbase + n + 3],
            };
        }
        // Hinting: snapshot the pre-hint state, round phantom points to
        // the pixel grid, and hand the glyph to the interpreter. A
        // failure aborts the call only in pedantic mode.
        if self.is_hinted {
            if s.instructions.len() > 0 {
                snapshot_original(mem, pbase, total);
                // Round the buffer's phantom entries to the pixel grid;
                // the committed phantom points keep their exact values.
                let r0 = round_pt(mem.scaled[pbase + n]);
                mem.scaled[pbase + n] = r0;
                let r1 = round_pt(mem.scaled[pbase + n + 1]);
                mem.scaled[pbase + n + 1] = r1;
                let r2 = round_pt(mem.scaled[pbase + n + 2]);
                mem.scaled[pbase + n + 2] = r2;
                let r3 = round_pt(mem.scaled[pbase + n + 3]);
                mem.scaled[pbase + n + 3] = r3;
                let ok = hinter.run(
                    gid,
                    false,
                    &s.instructions,
                    mem,
                    pbase,
                    total,
                    cbase,
                    ends,
                    &mut self.phantom,
                );
                if !ok && self.pedantic {
                    return Err(DrawError::HintingFailed(gid));
                }
            } else {
                if !hinter.backward_compatibility() {
                    // Un-instructed glyphs still take rounded phantom
                    // points from the buffer under a hinted request.
                    self.phantom = Phantoms {
                        pp0: round_pt(mem.scaled[pbase + n]),
                        pp1: round_pt(mem.scaled[pbase + n + 1]),
                        pp2: round_pt(mem.scaled[pbase + n + 2]),
                        pp3: round_pt(mem.scaled[pbase + n + 3]),
                    };
                }
            }
        }
        // Shift this glyph's contour end indices into the full
        // per-composite point array.
        if pbase != 0 {
            shift_contours_up(mem, cbase, cbase + ends, pbase);
        }
        self.point_count = pbase + n;
        self.contour_count = cbase + ends;
        Ok(())
    }

    /// The recursive loader over one glyph subtree (pass 2). The
    /// glyph-absent case succeeds with no writes; a present glyph first
    /// gets its phantom points from its bounding box and variation-
    /// adjusted metrics, then loads by kind. On success the running
    /// counts advance by exactly what the sizing pass measured for this
    /// subtree.
    pub(crate) fn load<H: HintInterpreter>(
        &mut self,
        o: &Outlines,
        coords: &Vec<i32>,
        mem: &mut OutlineMemory,
        gid: u16,
        depth: u32,
        hinter: &mut H,
    ) -> (r: Result<(), DrawError>)
        requires
            o.wf(),
            forall|i: int| 0 <= i < coords@.len() ==> -0x4000 <= #[trigger] coords@[i] <= 0x4000,
            depth <= COMPOSITE_RECURSION_LIMIT + 1,
            old(self).point_count <= old(mem).scaled.len(),
            old(self).contour_count <= old(mem).contours.len(),
        ensures
            same_shape(*old(mem), *final(mem)),
            old(self).same_config(*final(self)),
            final(self).point_count <= final(mem).scaled.len(),
            final(self).contour_count <= final(mem).contours.len(),
            final(self).point_count >= old(self).point_count,
            final(self).contour_count >= old(self).contour_count,
            match r {
                Ok(()) => glyph_size(o.glyphs@, gid, depth as int) matches Ok(info) && {
                    &&& final(self).point_count == old(self).point_count + info.points
                    &&& final(self).contour_count == old(self).contour_count + info.contours
                    &&& final(self).component_delta_count == old(self).component_delta_count
                },
                Err(e) => !(e matches DrawError::HintingFailed(_)) || (old(self).is_hinted
                    && old(self).pedantic),
            },
            (glyph_size(o.glyphs@, gid, depth as int) matches Ok(info) && arena_fits(
                *old(mem),
                old(self).point_count as int,
                old(self).contour_count as int,
                old(self).component_delta_count as int,
                info,
            )) ==> r != Err::<(), DrawError>(DrawError::InsufficientMemory),
            (glyph_size(o.glyphs@, gid, depth as int) matches Ok(info) && arena_fits(
                *old(mem),
                old(self).point_count as int,
                old(self).contour_count as int,
                old(self).component_delta_count as int,
                info,
            ) && anchors_ok(o.glyphs@, gid, depth as int) && !(old(self).is_hinted && old(
                self,
            ).pedantic)) ==> r is Ok,
            r matches Err(DrawError::InvalidAnchorPoint(g, idx)) ==> !anchors_ok(
                o.glyphs@,
                gid,
                depth as int,
            ),

            (!old(self).is_hinted && no_var(*o, coords@) && r is Ok) ==> match glyph_at(
                o.glyphs@,
                gid,
            ) {
                Some(Glyph::Simple(s)) => {
                    &&& forall|j: int|
                        old(self).point_count <= j < old(self).point_count + s.points@.len()
                            ==> #[trigger] final(mem).scaled@[j] == spec_scale_pt(
                            s.points@[j - old(self).point_count],
                            zero_pt(),
                            old(self).scale as int,
                            old(self).is_scaled,
                        )
                    &&& final(self).phantom == spec_scaled_phantoms(
                        spec_glyph_phantoms(*o, coords@, Glyph::Simple(s), gid),
                        old(self).scale as int,
                        old(self).is_scaled,
                    )
                },
                Some(Glyph::Composite(c)) => last_component_metrics(o.glyphs@, c) ==> final(self).phantom == last_component_phantoms(
                    *o,
                    coords@,
                    c,
                    old(self).scale as int,
                    old(self).is_scaled,
                ),
                _ => true,
            },
        decreases COMPOSITE_RECURSION_LIMIT + 1 - depth, 1int,
    {
        // An absent glyph is a valid empty one and never consumes
        // recursion depth; only present glyphs face the nesting limit.
        if gid as usize >= o.glyphs.len() {
            return Ok(());
        }
        match &o.glyphs[gid as usize] {
            None => Ok(()),
            Some(_) if depth > COMPOSITE_RECURSION_LIMIT => Err(
                DrawError::RecursionLimitExceeded(gid),
            ),
            Some(Glyph::Simple(s)) => {
                self.phantom = glyph_phantoms(o, coords, s.bounds, gid);
                self.load_simple(o, coords, mem, s, gid, hinter)
            },
            Some(Glyph::Composite(c)) => {
                self.phantom = glyph_phantoms(o, coords, c.bounds, gid);
                self.load_composite(o, coords, mem, c, gid, depth, hinter)
            },
        }
    }

    /// Loads a composite glyph: composite-level deltas, the inherited
    /// phantom points scaled, each component loaded recursively with its
    /// transform and anchor offset applied, metrics restored unless the
    /// component declares its own authoritative, and the composite's own
    /// bytecode run over all gathered points.
    fn load_composite<H: HintInterpreter>(
        &mut self,
        o: &Outlines,
        coords: &Vec<i32>,
        mem: &mut OutlineMemory,
        c: &CompositeGlyph,
        gid: u16,
        depth: u32,
        hinter: &mut H,
    ) -> (r: Result<(), DrawError>)
        requires
            o.wf(),
            forall|i: int| 0 <= i < coords@.len() ==> -0x4000 <= #[trigger] coords@[i] <= 0x4000,
            depth <= COMPOSITE_RECURSION_LIMIT,
            glyph_at(o.glyphs@, gid) == Some(Glyph::Composite(*c)),
            old(self).point_count <= old(mem).scaled.len(),
            old(self).contour_count <= old(mem).contours.len(),
        ensures
            same_shape(*old(mem), *final(mem)),
            old(self).same_config(*final(self)),
            final(self).point_count <= final(mem).scaled.len(),
            final(self).contour_count <= final(mem).contours.len(),
            final(self).point_count >= old(self).point_count,
            final(self).contour_count >= old(self).contour_count,
            match r {
                Ok(()) => glyph_size(o.glyphs@, gid, depth as int) matches Ok(info) && {
                    &&& final(self).point_count == old(self).point_count + info.points
                    &&& final(self).contour_count == old(self).contour_count + info.contours
                    &&& final(self).component_delta_count == old(self).component_delta_count
                },
                Err(e) => !(e matches DrawError::HintingFailed(_)) || (old(self).is_hinted
                    && old(self).pedantic),
            },
            (glyph_size(o.glyphs@, gid, depth as int) matches Ok(info) && arena_fits(
                *old(mem),
                old(self).point_count as int,
                old(self).contour_count as int,
                old(self).component_delta_count as int,
                info,
            )) ==> r != Err::<(), DrawError>(DrawError::InsufficientMemory),
            (glyph_size(o.glyphs@, gid, depth as int) matches Ok(info) && arena_fits(
                *old(mem),
                old(self).point_count as int,
                old(self).contour_count as int,
                old(self).component_delta_count as int,
                info,
            ) && anchors_ok(o.glyphs@, gid, depth as int) && !(old(self).is_hinted && old(
                self,
            ).pedantic)) ==> r is Ok,
            r matches Err(DrawError::InvalidAnchorPoint(g, idx)) ==> !anchors_ok(
                o.glyphs@,
                gid,
                depth as int,
            ),

            (!old(self).is_hinted && no_var(*o, coords@) && r is Ok && last_component_metrics(
                o.glyphs@,
                *c,
            )) ==> final(self).phantom == last_component_phantoms(
                *o,
                coords@,
                *c,
                old(self).scale as int,
                old(self).is_scaled,
            ),
        decreases COMPOSITE_RECURSION_LIMIT + 1 - depth, 0int,
    {
        let ghost glyphs = o.glyphs@;
        let ghost comps = c.components@;
        let pbase: usize = self.point_count;
        let cbase: usize = self.contour_count;
        let dbase: usize = self.component_delta_count;
        let ncomps: usize = c.components.len();
        proof {
            if glyph_size(glyphs, gid, depth as int) matches Ok(info) && arena_fits(
                *old(mem),
                pbase as int,
                cbase as int,
                dbase as int,
                info,
            ) {
                crate::outlines::lemma_comps_size_nonneg(
                    glyphs,
                    comps,
                    comps.len() as int,
                    depth as int + 1,
                );
            }
        }
        // Composite-level deltas: one per component plus the 4 phantom
        // points, stacked on the per-call component-delta region.
        let mut has_cdeltas: bool = false;
        if coords.len() > 0 {
            match &o.gvar {
                Some(g) => {
                    if (gid as usize) < g.glyph_deltas.len() {
                        if ncomps > usize::MAX - 4 {
                            return Err(DrawError::InsufficientMemory);
                        }
                        let cnt: usize = ncomps + 4;
                        if dbase > mem.composite_deltas.len() || cnt > mem.composite_deltas.len()
                            - dbase {
                            return Err(DrawError::InsufficientMemory);
                        }
                        has_cdeltas = fill_point_deltas(
                            coords,
                            &g.glyph_deltas[gid as usize],
                            cnt,
                            &mut mem.composite_deltas,
                            dbase,
                        );
                    }
                },
                None => {},
            }
        }
        if has_cdeltas {
            self.component_delta_count = dbase + (ncomps + 4);
            // A font without a variable-side-bearing mapping folds the
            // first phantom point's delta entry into phantom point 0's x
            // directly.
            let lsb_mapped: bool = match &o.hvar {
                Some(h) => matches!(h.lsb, Some(_)),
                None => false,
            };
            if !lsb_mapped {
                let dl = mem.composite_deltas[dbase + ncomps];
                self.phantom = Phantoms {
                    pp0: Point { x: add32(self.phantom.pp0.x, dl.x), y: self.phantom.pp0.y },
                    pp1: self.phantom.pp1,
                    pp2: self.phantom.pp2,
                    pp3: self.phantom.pp3,
                };
            }
        }
        let cdc: usize = self.component_delta_count;
        // Composites propagate phantom points downward already scaled.
        self.phantom = scale_phantoms(self.phantom, self.scale, self.is_scaled);
        let mut i: usize = 0;
        while i < ncomps
            invariant
                o.wf(),
                forall|k: int|
                    0 <= k < coords@.len() ==> -0x4000 <= #[trigger] coords@[k] <= 0x4000,
                depth <= COMPOSITE_RECURSION_LIMIT,
                glyph_at(glyphs, gid) == Some(Glyph::Composite(*c)),
                glyphs == o.glyphs@,
                comps == c.components@,
                ncomps == comps.len(),
                0 <= i <= ncomps,
                same_shape(*old(mem), *mem),
                old(self).same_config(*self),
                self.component_delta_count == cdc,
                has_cdeltas ==> cdc == dbase + ncomps + 4,
                !has_cdeltas ==> cdc == dbase,
                pbase == old(self).point_count,
                cbase == old(self).contour_count,
                dbase == old(self).component_delta_count,
                has_cdeltas ==> dbase + ncomps + 4 <= mem.composite_deltas.len(),
                pbase <= self.point_count <= mem.scaled.len(),
                cbase <= self.contour_count <= mem.contours.len(),
                comps_size(glyphs, comps, i as int, depth as int + 1) matches Ok(acc) && {
                    &&& self.point_count == pbase + acc.points
                    &&& self.contour_count == cbase + acc.contours
                },
                (!old(self).is_hinted && no_var(*o, coords@) && i == ncomps
                    && last_component_metrics(glyphs, *c)) ==> self.phantom
                    == last_component_phantoms(
                    *o,
                    coords@,
                    *c,
                    old(self).scale as int,
                    old(self).is_scaled,
                ),
            decreases ncomps - i,
        {
            let comp: Component = c.components[i];
            let saved: Phantoms = self.phantom;
            let child_pbase: usize = self.point_count;
            proof {
                if glyph_size(glyphs, gid, depth as int) matches Ok(info) && arena_fits(
                    *old(mem),
                    pbase as int,
                    cbase as int,
                    dbase as int,
                    info,
                ) {
                    let d1 = depth as int + 1;
                    let len = comps.len() as int;
                    crate::outlines::lemma_comps_size_monotone(glyphs, comps, i as int + 1, len, d1);
                    crate::outlines::lemma_comps_size_monotone(
                        glyphs,
                        comps,
                        i as int,
                        i as int + 1,
                        d1,
                    );
                    crate::outlines::lemma_comps_size_nonneg(glyphs, comps, i as int, d1);
                    if glyph_size(glyphs, comp.glyph_id, d1) is Ok {
                        crate::outlines::lemma_glyph_size_nonneg(glyphs, comp.glyph_id, d1);
                    }
                }
                if comps_anchors_ok(glyphs, comps, comps.len() as int, depth as int + 1) {
                    lemma_comps_anchors_prefix(
                        glyphs,
                        comps,
                        i as int + 1,
                        comps.len() as int,
                        depth as int + 1,
                    );
                }
            }
            match self.load(o, coords, mem, comp.glyph_id, depth + 1, hinter) {
                Err(e) => {
                    return Err(e);
                },
                Ok(()) => {},
            }
            // Only a component marked authoritative may change the
            // composite's final metrics; every other child's phantom
            // points are discarded.
            if !comp.use_my_metrics {
                self.phantom = saved;
            }
            match comp.transform {
                Some(t) => {
                    transform_window(mem, t, child_pbase, self.point_count);
                },
                None => {},
            }
            let off: Point = match comp.anchor {
                Anchor::Offset { x, y } => {
                    let d: Point = if has_cdeltas {
                        mem.composite_deltas[dbase + i]
                    } else {
                        Point { x: 0, y: 0 }
                    };
                    component_offset(x, y, comp, d, self.scale, self.is_scaled, self.is_hinted)
                },
                Anchor::Aligned { base, component } => {
                    // Aligns a named point of the points gathered so far
                    // with a named point of this component, as a
                    // difference of already-scaled coordinates.
                    if base >= child_pbase - pbase {
                        return Err(DrawError::InvalidAnchorPoint(gid, base));
                    }
                    if component >= self.point_count - child_pbase {
                        return Err(DrawError::InvalidAnchorPoint(gid, component));
                    }
                    let p1 = mem.scaled[pbase + base];
                    let p2 = mem.scaled[child_pbase + component];
                    Point { x: sub32(p1.x, p2.x), y: sub32(p1.y, p2.y) }
                },
            };
            offset_window(mem, child_pbase, self.point_count, off);
            i = i + 1;
        }
        proof {
            if glyph_size(glyphs, gid, depth as int) matches Ok(info) && arena_fits(
                *old(mem),
                pbase as int,
                cbase as int,
                dbase as int,
                info,
            ) {
                crate::outlines::lemma_comps_size_nonneg(
                    glyphs,
                    comps,
                    comps.len() as int,
                    depth as int + 1,
                );
            }
        }
        // The composite's own bytecode runs over all gathered points,
        // with this composite's contours temporarily zero-based and the
        // final scaled points reinterpreted as its unscaled data.
        if self.is_hinted && c.instructions.len() > 0 {
            let np: usize = self.point_count - pbase;
            if np > usize::MAX - 4 {
                return Err(DrawError::InsufficientMemory);
            }
            let tot: usize = np + 4;
            if pbase > mem.scaled.len() || tot > mem.scaled.len() - pbase {
                return Err(DrawError::InsufficientMemory);
            }
            if pbase > mem.flags.len() || tot > mem.flags.len() - pbase {
                return Err(DrawError::InsufficientMemory);
            }
            if tot > mem.unscaled.len() || tot > mem.original_scaled.len() {
                return Err(DrawError::InsufficientMemory);
            }
            let pc: usize = self.point_count;
            mem.scaled[pc] = self.phantom.pp0;
            mem.scaled[pc + 1] = self.phantom.pp1;
            mem.scaled[pc + 2] = self.phantom.pp2;
            mem.scaled[pc + 3] = self.phantom.pp3;
            mem.flags[pc] = 0;
            mem.flags[pc + 1] = 0;
            mem.flags[pc + 2] = 0;
            mem.flags[pc + 3] = 0;
            copy_scaled_to_unscaled(mem, pbase, tot);
            snapshot_original(mem, pbase, tot);
            // Round the buffer's phantom entries; the committed phantom
            // points keep their exact values.
            let r0 = round_pt(mem.scaled[pc]);
            mem.scaled[pc] = r0;
            let r1 = round_pt(mem.scaled[pc + 1]);
            mem.scaled[pc + 1] = r1;
            let r2 = round_pt(mem.scaled[pc + 2]);
            mem.scaled[pc + 2] = r2;
            let r3 = round_pt(mem.scaled[pc + 3]);
            mem.scaled[pc + 3] = r3;
            shift_contours_down(mem, cbase, self.contour_count, pbase);
            let ccount: usize = self.contour_count - cbase;
            let ok = hinter.run(
                gid,
                true,
                &c.instructions,
                mem,
                pbase,
                tot,
                cbase,
                ccount,
                &mut self.phantom,
            );
            shift_contours_up(mem, cbase, self.contour_count, pbase);
            if !ok && self.pedantic {
                return Err(DrawError::HintingFailed(gid));
            }
        }
        // Pop this composite's component-delta stack frame.
        self.component_delta_count = dbase;
        Ok(())
    }
}

/// Saturated absolute value.
pub open spec fn spec_abs32(x: int) -> int {
    sat32(
        if x < 0 {
            -x
        } else {
            x
        },
    )
}

fn abs_sat(x: i32) -> (r: i32)
    ensures
        r as int == spec_abs32(x as int),
{
    if x >= 0 {
        x
    } else {
        crate::fixed::clamp32(-(x as i64))
    }
}

/// The legacy hypotenuse approximation used to scale literal component
/// offsets: the larger magnitude plus three eighths of the smaller, not
/// a true norm. Preserved exactly for bit-compatible output.
pub open spec fn spec_hyp14(a: int, b: int) -> int {
    let aa = spec_abs32(a);
    let bb = spec_abs32(b);
    if aa > bb {
        sat32(aa + floor_div(3 * bb, 8))
    } else {
        sat32(bb + floor_div(3 * aa, 8))
    }
}

fn hyp14(a: i32, b: i32) -> (r: i32)
    ensures
        r as int == spec_hyp14(a as int, b as int),
{
    let aa = abs_sat(a);
    let bb = abs_sat(b);
    if aa > bb {
        crate::fixed::clamp32((aa as i64) + (3 * (bb as i64)) / 8)
    } else {
        crate::fixed::clamp32((bb as i64) + (3 * (aa as i64)) / 8)
    }
}

/// The 2x2 component transform applied to one stored 26.6 point.
pub open spec fn spec_transform(t: Transform, p: Point) -> Point {
    Point {
        x: sat32(spec_mul14(p.x as int, t.xx as int) + spec_mul14(p.y as int, t.xy as int))
            as i32,
        y: sat32(spec_mul14(p.x as int, t.yx as int) + spec_mul14(p.y as int, t.yy as int))
            as i32,
    }
}

fn transform_pt(t: Transform, p: Point) -> (r: Point)
    ensures
        r == spec_transform(t, p),
{
    Point {
        x: add32(mul14(p.x, t.xx), mul14(p.y, t.xy)),
        y: add32(mul14(p.x, t.yx), mul14(p.y, t.yy)),
    }
}

/// Applies a component's transform to every point it just wrote.
fn transform_window(mem: &mut OutlineMemory, t: Transform, from: usize, to: usize)
    requires
        from <= to <= old(mem).scaled.len(),
    ensures
        only_scaled_differs(*old(mem), *final(mem)),
        final(mem).scaled@.len() == old(mem).scaled@.len(),
        forall|j: int|
            0 <= j < old(mem).scaled@.len() && !(from <= j < to) ==> #[trigger] final(mem).scaled@[j] == old(mem).scaled@[j],
        forall|j: int|
            from <= j < to ==> #[trigger] final(mem).scaled@[j] == spec_transform(
                t,
                old(mem).scaled@[j],
            ),
{
    let mut j: usize = from;
    while j < to
        invariant
            from <= j <= to <= mem.scaled.len(),
            only_scaled_differs(*old(mem), *mem),
            mem.scaled@.len() == old(mem).scaled@.len(),
            forall|k: int|
                0 <= k < old(mem).scaled@.len() && !(from <= k < j) ==> #[trigger] mem.scaled@[k]
                    == old(mem).scaled@[k],
            forall|k: int|
                from <= k < j ==> #[trigger] mem.scaled@[k] == spec_transform(
                    t,
                    old(mem).scaled@[k],
                ),
        decreases to - j,
    {
        let p = mem.scaled[j];
        mem.scaled[j] = transform_pt(t, p);
        j = j + 1;
    }
}

/// The offset one point gains: both coordinates shifted, saturating.
pub open spec fn spec_offset_pt(p: Point, off: Point) -> Point {
    Point { x: sat32(p.x + off.x) as i32, y: sat32(p.y + off.y) as i32 }
}

/// Applies the component's anchor offset to every point it just wrote.
fn offset_window(mem: &mut OutlineMemory, from: usize, to: usize, off: Point)
    requires
        from <= to <= old(mem).scaled.len(),
    ensures
        only_scaled_differs(*old(mem), *final(mem)),
        final(mem).scaled@.len() == old(mem).scaled@.len(),
        forall|j: int|
            0 <= j < old(mem).scaled@.len() && !(from <= j < to) ==> #[trigger] final(mem).scaled@[j] == old(mem).scaled@[j],
        forall|j: int|
            from <= j < to ==> #[trigger] final(mem).scaled@[j] == spec_offset_pt(
                old(mem).scaled@[j],
                off,
            ),
{
    let mut j: usize = from;
    while j < to
        invariant
            from <= j <= to <= mem.scaled.len(),
            only_scaled_differs(*old(mem), *mem),
            mem.scaled@.len() == old(mem).scaled@.len(),
            forall|k: int|
                0 <= k < old(mem).scaled@.len() && !(from <= k < j) ==> #[trigger] mem.scaled@[k]
                    == old(mem).scaled@[k],
            forall|k: int|
                from <= k < j ==> #[trigger] mem.scaled@[k] == spec_offset_pt(
                    old(mem).scaled@[k],
                    off,
                ),
        decreases to - j,
    {
        let p = mem.scaled[j];
        mem.scaled[j] = Point { x: add32(p.x, off.x), y: add32(p.y, off.y) };
        j = j + 1;
    }
}

/// A literal component offset taken to 26.6: variation delta added in
/// font units, the legacy magnitude heuristic applied when the component
/// asks for scaled offsets, then the scale factor, then optional
/// vertical grid-rounding under hinting.
pub open spec fn spec_component_offset(
    x: int,
    y: int,
    comp: Component,
    d: Point,
    scale: int,
    is_scaled: bool,
    hinted: bool,
) -> Point {
    let dx0 = sat32(x + d.x);
    let dy0 = sat32(y + d.y);
    let dx1 = match comp.transform {
        Some(t) => if comp.scaled_offset {
            spec_mul14(dx0, spec_hyp14(t.xx as int, t.xy as int))
        } else {
            dx0
        },
        None => dx0,
    };
    let dy1 = match comp.transform {
        Some(t) => if comp.scaled_offset {
            spec_mul14(dy0, spec_hyp14(t.yy as int, t.yx as int))
        } else {
            dy0
        },
        None => dy0,
    };
    let o26 = spec_scale_pt(
        Point { x: dx1 as i32, y: dy1 as i32 },
        zero_pt(),
        scale,
        is_scaled,
    );
    if hinted && comp.round_to_grid {
        Point { x: o26.x, y: spec_round26(o26.y as int) as i32 }
    } else {
        o26
    }
}

fn component_offset(
    x: i32,
    y: i32,
    comp: Component,
    d: Point,
    scale: i32,
    is_scaled: bool,
    hinted: bool,
) -> (r: Point)
    ensures
        r == spec_component_offset(x as int, y as int, comp, d, scale as int, is_scaled, hinted),
{
    let dx0 = add32(x, d.x);
    let dy0 = add32(y, d.y);
    let (dx1, dy1) = match comp.transform {
        Some(t) => if comp.scaled_offset {
            (mul14(dx0, hyp14(t.xx, t.xy)), mul14(dy0, hyp14(t.yy, t.yx)))
        } else {
            (dx0, dy0)
        },
        None => (dx0, dy0),
    };
    let o26 = scale_pt(Point { x: dx1, y: dy1 }, Point { x: 0, y: 0 }, scale, is_scaled);
    if hinted && comp.round_to_grid {
        Point { x: o26.x, y: round26(o26.y) }
    } else {
        o26
    }
}

/// Shifts a composite's contour end indices to be zero-based for its own
/// bytecode run; an index below the base clamps at zero.
fn shift_contours_down(mem: &mut OutlineMemory, cbase: usize, cend: usize, pbase: usize)
    requires
        cbase <= cend <= old(mem).contours.len(),
    ensures
        only_contours_differs(*old(mem), *final(mem)),
        final(mem).contours@.len() == old(mem).contours@.len(),
        forall|j: int|
            0 <= j < old(mem).contours@.len() && !(cbase <= j < cend) ==> #[trigger] final(mem).contours@[j] == old(mem).contours@[j],
{
    let mut j: usize = cbase;
    while j < cend
        invariant
            cbase <= j <= cend <= mem.contours.len(),
            only_contours_differs(*old(mem), *mem),
            mem.contours@.len() == old(mem).contours@.len(),
            forall|k: int|
                0 <= k < old(mem).contours@.len() && !(cbase <= k < j)
                    ==> #[trigger] mem.contours@[k] == old(mem).contours@[k],
        decreases cend - j,
    {
        let v = mem.contours[j];
        mem.contours[j] = if v >= pbase {
            v - pbase
        } else {
            0
        };
        j = j + 1;
    }
}

/// Shifts contour end indices up by a point base: into the full
/// per-composite array after a simple glyph's load, or back after a
/// composite's bytecode ran.
fn shift_contours_up(mem: &mut OutlineMemory, cbase: usize, cend: usize, pbase: usize)
    requires
        cbase <= cend <= old(mem).contours.len(),
    ensures
        only_contours_differs(*old(mem), *final(mem)),
        final(mem).contours@.len() == old(mem).contours@.len(),
        forall|j: int|
            0 <= j < old(mem).contours@.len() && !(cbase <= j < cend) ==> #[trigger] final(mem).contours@[j] == old(mem).contours@[j],
        forall|j: int|
            cbase <= j < cend ==> #[trigger] final(mem).contours@[j] == sat_usize(
                old(mem).contours@[j] + pbase,
            ),
{
    let mut j: usize = cbase;
    while j < cend
        invariant
            cbase <= j <= cend <= mem.contours.len(),
            only_contours_differs(*old(mem), *mem),
            mem.contours@.len() == old(mem).contours@.len(),
            forall|k: int|
                0 <= k < old(mem).contours@.len() && !(cbase <= k < j)
                    ==> #[trigger] mem.contours@[k] == old(mem).contours@[k],
            forall|k: int|
                cbase <= k < j ==> #[trigger] mem.contours@[k] == sat_usize(
                    old(mem).contours@[k] + pbase,
                ),
        decreases cend - j,
    {
        let v = mem.contours[j];
        mem.contours[j] = crate::outlines::sat_add(v, pbase);
        j = j + 1;
    }
}

/// Reinterprets a composite's final scaled window as its own unscaled
/// data for the interpreter, integer for integer.
fn copy_scaled_to_unscaled(mem: &mut OutlineMemory, pbase: usize, total: usize)
    requires
        pbase + total <= old(mem).scaled.len(),
        total <= old(mem).unscaled.len(),
    ensures
        only_unscaled_differs(*old(mem), *final(mem)),
        final(mem).unscaled@.len() == old(mem).unscaled@.len(),
{
    let mut i: usize = 0;
    while i < total
        invariant
            0 <= i <= total,
            pbase + total <= mem.scaled.len(),
            total <= mem.unscaled.len(),
            only_unscaled_differs(*old(mem), *mem),
            mem.unscaled@.len() == old(mem).unscaled@.len(),
        decreases total - i,
    {
        let p = mem.scaled[pbase + i];
        mem.unscaled[i] = p;
        i = i + 1;
    }
}

fn scale_phantoms(ph: Phantoms, scale: i32, is_scaled: bool) -> (r: Phantoms)
    ensures
        r == spec_scaled_phantoms(ph, scale as int, is_scaled),
{
    let zero = Point { x: 0, y: 0 };
    Phantoms {
        pp0: scale_pt(ph.pp0, zero, scale, is_scaled),
        pp1: scale_pt(ph.pp1, zero, scale, is_scaled),
        pp2: scale_pt(ph.pp2, zero, scale, is_scaled),
        pp3: scale_pt(ph.pp3, zero, scale, is_scaled),
    }
}

/// Re-bases every output point's x so the origin sits at the glyph's
/// left side bearing, as the reference rasterizer's output convention
/// demands.
fn rebase_x(mem: &mut OutlineMemory, count: usize, dx: i32)
    requires
        count <= old(mem).scaled.len(),
    ensures
        only_scaled_differs(*old(mem), *final(mem)),
        final(mem).scaled@.len() == old(mem).scaled@.len(),
        forall|j: int|
            count <= j < old(mem).scaled@.len() ==> #[trigger] final(mem).scaled@[j] == old(mem).scaled@[j],
        forall|j: int|
            0 <= j < count ==> #[trigger] final(mem).scaled@[j] == (Point {
                x: sat32(old(mem).scaled@[j].x - dx) as i32,
                y: old(mem).scaled@[j].y,
            }),
{
    let mut j: usize = 0;
    while j < count
        invariant
            0 <= j <= count <= mem.scaled.len(),
            only_scaled_differs(*old(mem), *mem),
            mem.scaled@.len() == old(mem).scaled@.len(),
            forall|k: int|
                j <= k < old(mem).scaled@.len() ==> #[trigger] mem.scaled@[k] == old(mem).scaled@[k],
            forall|k: int|
                0 <= k < j ==> #[trigger] mem.scaled@[k] == (Point {
                    x: sat32(old(mem).scaled@[k].x - dx) as i32,
                    y: old(mem).scaled@[k].y,
                }),
        decreases count - j,
    {
        let p = mem.scaled[j];
        mem.scaled[j] = Point { x: sub32(p.x, dx), y: p.y };
        j = j + 1;
    }
}

/// The exact output point of an unscaled, unhinted draw of a simple
/// glyph at the default variation position: the raw coordinate
/// reinterpreted in 26.6, x re-based by the scaled phantom origin.
pub open spec fn spec_unscaled_simple_out(
    o: Outlines,
    coords: Seq<i32>,
    s: SimpleGlyph,
    gid: u16,
    j: int,
) -> Point {
    let raw = spec_scale_pt(s.points@[j], zero_pt(), 0, false);
    let ph = spec_scaled_phantoms(
        spec_glyph_phantoms(o, coords, Glyph::Simple(s), gid),
        0,
        false,
    );
    if ph.pp0.x != 0 {
        Point { x: sat32(raw.x - ph.pp0.x) as i32, y: raw.y }
    } else {
        raw
    }
}

fn run_scale<H: HintInterpreter>(
    o: &Outlines,
    outline: &Outline,
    mem: &mut OutlineMemory,
    coords: &Vec<i32>,
    ppem: Option<u32>,
    hinter: &mut H,
    hinted: bool,
    pedantic: bool,
) -> (r: Result<ScaledOutline, DrawError>)
    requires
        o.wf(),
        forall|i: int| 0 <= i < coords@.len() ==> -0x4000 <= #[trigger] coords@[i] <= 0x4000,
        ppem matches Some(p) ==> p <= 0x0400_0000,
    ensures
        same_shape(*old(mem), *final(mem)),
        match r {
            Ok(so) => glyph_size(o.glyphs@, outline.glyph_id, 0) matches Ok(info) && {
                &&& so.point_count == info.points
                &&& so.contour_count == info.contours
                &&& so.point_count <= final(mem).scaled@.len()
                &&& so.contour_count <= final(mem).contours@.len()
            },
            Err(e) => !(e matches DrawError::HintingFailed(_)) || (hinted && pedantic),
        },
        glyph_size(o.glyphs@, outline.glyph_id, 0) is Err ==> r is Err,
        (glyph_size(o.glyphs@, outline.glyph_id, 0) matches Ok(info) && arena_fits(
            *old(mem),
            0,
            0,
            0,
            info,
        )) ==> r != Err::<ScaledOutline, DrawError>(DrawError::InsufficientMemory),
        (glyph_size(o.glyphs@, outline.glyph_id, 0) matches Ok(info) && arena_fits(
            *old(mem),
            0,
            0,
            0,
            info,
        ) && anchors_ok(o.glyphs@, outline.glyph_id, 0) && !(hinted && pedantic)) ==> r is Ok,
        r matches Err(DrawError::InvalidAnchorPoint(g, idx)) ==> !anchors_ok(
            o.glyphs@,
            outline.glyph_id,
            0,
        ),
        (!hinted && no_var(*o, coords@) && !spec_compute_scale(o.units_per_em as int, ppem).0)
            ==> match (glyph_at(o.glyphs@, outline.glyph_id), r) {
            (Some(Glyph::Simple(s)), Ok(so)) => {
                &&& forall|j: int|
                    0 <= j < s.points@.len() ==> #[trigger] final(mem).scaled@[j]
                        == spec_unscaled_simple_out(*o, coords@, s, outline.glyph_id, j)
                &&& so.phantom == spec_scaled_phantoms(
                    spec_glyph_phantoms(*o, coords@, Glyph::Simple(s), outline.glyph_id),
                    0,
                    false,
                )
            },
            _ => true,
        },
        (!hinted && no_var(*o, coords@)) ==> match (
            glyph_at(o.glyphs@, outline.glyph_id),
            r,
        ) {
            (Some(Glyph::Composite(c)), Ok(so)) => last_component_metrics(o.glyphs@, c)
                ==> so.phantom == last_component_phantoms(
                *o,
                coords@,
                c,
                spec_compute_scale(o.units_per_em as int, ppem).1 as int,
                spec_compute_scale(o.units_per_em as int, ppem).0,
            ),
            _ => true,
        },
{
    let (is_scaled, factor) = o.compute_scale(ppem);
    // Unscaled outlines are never hinted.
    let is_hinted = hinted && is_scaled;
    let mut sc = Scaler {
        scale: factor,
        is_scaled,
        is_hinted,
        pedantic,
        point_count: 0,
        contour_count: 0,
        component_delta_count: 0,
        phantom: Phantoms::zero(),
    };
    match sc.load(o, coords, mem, outline.glyph_id, 0, hinter) {
        Err(e) => Err(e),
        Ok(()) => {
            let dx = sc.phantom.pp0.x;
            if dx != 0 {
                rebase_x(mem, sc.point_count, dx);
            }
            Ok(
                ScaledOutline {
                    point_count: sc.point_count,
                    contour_count: sc.contour_count,
                    phantom: sc.phantom,
                },
            )
        },
    }
}

impl Outlines {
    /// Runs the Scaler (pass 2) over a previously sized outline without
    /// hinting: scaled, variation-adjusted point data into the caller's
    /// arena, coordinates re-based to the left side bearing.
    pub fn draw(
        &self,
        outline: &Outline,
        mem: &mut OutlineMemory,
        coords: &Vec<i32>,
        ppem: Option<u32>,
    ) -> (r: Result<ScaledOutline, DrawError>)
        requires
            self.wf(),
            forall|i: int| 0 <= i < coords@.len() ==> -0x4000 <= #[trigger] coords@[i] <= 0x4000,
            ppem matches Some(p) ==> p <= 0x0400_0000,
        ensures
            same_shape(*old(mem), *final(mem)),
            match r {
                Ok(so) => glyph_size(self.glyphs@, outline.glyph_id, 0) matches Ok(info) && {
                    &&& so.point_count == info.points
                    &&& so.contour_count == info.contours
                    &&& so.point_count <= final(mem).scaled@.len()
                    &&& so.contour_count <= final(mem).contours@.len()
                },
                Err(e) => !(e matches DrawError::HintingFailed(_)),
            },
            glyph_size(self.glyphs@, outline.glyph_id, 0) is Err ==> r is Err,
            (glyph_size(self.glyphs@, outline.glyph_id, 0) matches Ok(info) && arena_fits(
                *old(mem),
                0,
                0,
                0,
                info,
            )) ==> r != Err::<ScaledOutline, DrawError>(DrawError::InsufficientMemory),
            (glyph_size(self.glyphs@, outline.glyph_id, 0) matches Ok(info) && arena_fits(
                *old(mem),
                0,
                0,
                0,
                info,
            ) && anchors_ok(self.glyphs@, outline.glyph_id, 0)) ==> r is Ok,
            r matches Err(DrawError::InvalidAnchorPoint(g, idx)) ==> !anchors_ok(
                self.glyphs@,
                outline.glyph_id,
                0,
            ),
            (no_var(*self, coords@) && !spec_compute_scale(self.units_per_em as int, ppem).0)
                ==> match (glyph_at(self.glyphs@, outline.glyph_id), r) {
                (Some(Glyph::Simple(s)), Ok(so)) => {
                    &&& forall|j: int|
                        0 <= j < s.points@.len() ==> #[trigger] final(mem).scaled@[j]
                            == spec_unscaled_simple_out(*self, coords@, s, outline.glyph_id, j)
                    &&& so.phantom == spec_scaled_phantoms(
                        spec_glyph_phantoms(
                            *self,
                            coords@,
                            Glyph::Simple(s),
                            outline.glyph_id,
                        ),
                        0,
                        false,
                    )
                },
                _ => true,
            },
            no_var(*self, coords@) ==> match (glyph_at(self.glyphs@, outline.glyph_id), r) {
                (Some(Glyph::Composite(c)), Ok(so)) => last_component_metrics(
                    self.glyphs@,
                    c,
                ) ==> so.phantom == last_component_phantoms(
                    *self,
                    coords@,
                    c,
                    spec_compute_scale(self.units_per_em as int, ppem).1 as int,
                    spec_compute_scale(self.units_per_em as int, ppem).0,
                ),
                _ => true,
            },
    {
        let mut null = crate::hint::NullInterpreter;
        run_scale(self, outline, mem, coords, ppem, &mut null, false, false)
    }

    /// Runs the Scaler with hinting: the attached interpreter adjusts
    /// each instructed glyph's scaled points. An interpreter failure
    /// aborts the call only in pedantic mode; otherwise the scaled state
    /// is returned as it stands.
    pub fn draw_hinted<H: HintInterpreter>(
        &self,
        outline: &Outline,
        mem: &mut OutlineMemory,
        coords: &Vec<i32>,
        ppem: Option<u32>,
        hinter: &mut H,
        pedantic: bool,
    ) -> (r: Result<ScaledOutline, DrawError>)
        requires
            self.wf(),
            forall|i: int| 0 <= i < coords@.len() ==> -0x4000 <= #[trigger] coords@[i] <= 0x4000,
            ppem matches Some(p) ==> p <= 0x0400_0000,
        ensures
            same_shape(*old(mem), *final(mem)),
            match r {
                Ok(so) => glyph_size(self.glyphs@, outline.glyph_id, 0) matches Ok(info) && {
                    &&& so.point_count == info.points
                    &&& so.contour_count == info.contours
                    &&& so.point_count <= final(mem).scaled@.len()
                    &&& so.contour_count <= final(mem).contours@.len()
                },
                Err(e) => !(e matches DrawError::HintingFailed(_)) || pedantic,
            },
            glyph_size(self.glyphs@, outline.glyph_id, 0) is Err ==> r is Err,
            (glyph_size(self.glyphs@, outline.glyph_id, 0) matches Ok(info) && arena_fits(
                *old(mem),
                0,
                0,
                0,
                info,
            )) ==> r != Err::<ScaledOutline, DrawError>(DrawError::InsufficientMemory),
            (glyph_size(self.glyphs@, outline.glyph_id, 0) matches Ok(info) && arena_fits(
                *old(mem),
                0,
                0,
                0,
                info,
            ) && anchors_ok(self.glyphs@, outline.glyph_id, 0) && !pedantic) ==> r is Ok,
            r matches Err(DrawError::InvalidAnchorPoint(g, idx)) ==> !anchors_ok(
                self.glyphs@,
                outline.glyph_id,
                0,
            ),
    {
        run_scale(self, outline, mem, coords, ppem, hinter, true, pedantic)
    }
}

} // verus!
