//! Engine-wide laws, stated over the same spec functions the public
//! contracts use and proved once and for all.

use vstd::prelude::*;

use crate::fixed::UNSCALED_FACTOR;
use crate::memory::OutlineMemory;
use crate::model::{wf_glyph, Bounds, Component, Glyph, Point, SimpleGlyph};
use crate::outlines::{
    comps_size, glyph_at, glyph_size, lemma_comps_size_err, outline_points, simple_size,
    spec_compute_scale, spec_metric_for, Outline, Outlines, SizeInfo,
    COMPOSITE_RECURSION_LIMIT,
};
use crate::scaler::{arena_fits, spec_unscaled_simple_out};

verus! {

/// Sizing succeeds on every glyph of a font without composite glyphs,
/// and a simple glyph's size is its own point and contour count: the
/// walk can only fail by composite nesting.
pub proof fn lemma_sizing_simple_font(glyphs: Seq<Option<Glyph>>, gid: u16)
    requires
        forall|i: int|
            0 <= i < glyphs.len() ==> !(#[trigger] glyphs[i] matches Some(Glyph::Composite(_))),
    ensures
        glyph_size(glyphs, gid, 0) is Ok,
        glyph_at(glyphs, gid) matches Some(Glyph::Simple(s)) ==> glyph_size(glyphs, gid, 0)
            == Ok::<SizeInfo, u16>(simple_size(s)),
{
}

proof fn lemma_comps_all_ok(
    glyphs: Seq<Option<Glyph>>,
    comps: Seq<Component>,
    n: int,
    depth: int,
)
    requires
        0 <= n <= comps.len(),
        0 <= depth <= COMPOSITE_RECURSION_LIMIT + 1,
        forall|k: int|
            0 <= k < n ==> glyph_size(glyphs, (#[trigger] comps[k]).glyph_id, depth) is Ok,
    ensures
        comps_size(glyphs, comps, n, depth) is Ok,
    decreases n,
{
    if n > 0 {
        lemma_comps_all_ok(glyphs, comps, n - 1, depth);
    }
}

/// Sizing succeeds on a composite whose components reference only
/// simple or absent glyphs: one level of nesting never reaches the
/// recursion limit.
pub proof fn lemma_sizing_shallow_composite(glyphs: Seq<Option<Glyph>>, gid: u16)
    requires
        glyph_at(glyphs, gid) matches Some(Glyph::Composite(c)) ==> forall|k: int|
            0 <= k < c.components@.len() ==> !(glyph_at(
                glyphs,
                (#[trigger] c.components@[k]).glyph_id,
            ) matches Some(Glyph::Composite(_))),
    ensures
        glyph_size(glyphs, gid, 0) is Ok,
{
    match glyph_at(glyphs, gid) {
        Some(Glyph::Composite(c)) => {
            assert forall|k: int| 0 <= k < c.components@.len() implies glyph_size(
                glyphs,
                (#[trigger] c.components@[k]).glyph_id,
                1,
            ) is Ok by {
                let cgid = c.components@[k].glyph_id;
                assert(!(glyph_at(glyphs, cgid) matches Some(Glyph::Composite(_))));
            }
            lemma_comps_all_ok(glyphs, c.components@, c.components@.len() as int, 1);
        },
        _ => {},
    }
}

proof fn lemma_self_cycle_depth(glyphs: Seq<Option<Glyph>>, gid: u16, d: int)
    requires
        gid < glyphs.len(),
        glyphs[gid as int] matches Some(Glyph::Composite(c)) && c.components@.len() > 0
            && c.components@[0].glyph_id == gid,
        0 <= d <= COMPOSITE_RECURSION_LIMIT + 1,
    ensures
        glyph_size(glyphs, gid, d) == Err::<SizeInfo, u16>(gid),
    decreases COMPOSITE_RECURSION_LIMIT + 1 - d,
{
    if d <= COMPOSITE_RECURSION_LIMIT {
        lemma_self_cycle_depth(glyphs, gid, d + 1);
        match glyphs[gid as int] {
            Some(Glyph::Composite(c)) => {
                assert(comps_size(glyphs, c.components@, 0, d + 1) == Ok::<SizeInfo, u16>(
                    crate::outlines::empty_size(),
                ));
                assert(comps_size(glyphs, c.components@, 1, d + 1) == Err::<SizeInfo, u16>(gid));
                lemma_comps_size_err(
                    glyphs,
                    c.components@,
                    1,
                    c.components@.len() as int,
                    d + 1,
                );
            },
            _ => {},
        }
    }
}

/// A composite glyph whose first component references the glyph itself
/// makes the sizing walk fail with the recursion-limit error carrying
/// that glyph id, rather than looping: the cycle guard.
pub proof fn lemma_self_cycle_fails(glyphs: Seq<Option<Glyph>>, gid: u16)
    requires
        gid < glyphs.len(),
        glyphs[gid as int] matches Some(Glyph::Composite(c)) && c.components@.len() > 0
            && c.components@[0].glyph_id == gid,
    ensures
        glyph_size(glyphs, gid, 0) == Err::<SizeInfo, u16>(gid),
{
    lemma_self_cycle_depth(glyphs, gid, 0);
}

/// Without a requested size the scale decision is "unscaled" with the
/// identity sentinel bit pattern 0x10000.
pub proof fn lemma_compute_scale_none(upem: int)
    ensures
        spec_compute_scale(upem, None::<u32>) == (false, UNSCALED_FACTOR),
{
}

/// With a size and a positive em count the factor is exactly
/// `ppem * 64 / upem` carried in 26.6, that is `(ppem * 64 * 64) / upem`
/// in raw bits, whenever that value fits.
pub proof fn lemma_compute_scale_some(upem: int, ppem: u32)
    requires
        0 < upem,
        ppem as int * 4096 / upem <= 0x7FFF_FFFF,
    ensures
        spec_compute_scale(upem, Some(ppem)) == (true, (ppem as int * 64 * 64 / upem) as i32),
{
    assert(ppem as int * 64 * 64 == ppem as int * 4096);
}

/// The phantom-point formulas: phantom 0's x is `x_min - lsb`, phantom
/// 1's x one advance width further; phantom 2's y is `y_max` plus the
/// top bearing, phantom 3's y one vertical advance below it.
pub proof fn lemma_phantom_formulas(
    bounds: Bounds,
    lsb: int,
    advance: int,
    ascender: int,
    descender: int,
)
    requires
        -0x8000 <= bounds.x_min <= 0x7FFF,
        -0x8000 <= bounds.y_max <= 0x7FFF,
        -0x8000 <= lsb <= 0x7FFF,
        0 <= advance <= 0xFFFF,
        -0x8000 <= ascender <= 0x7FFF,
        -0x8000 <= descender <= 0x7FFF,
    ensures
        ({
            let ph = crate::scaler::spec_unscaled_phantoms(
                bounds,
                lsb,
                advance,
                ascender,
                descender,
            );
            &&& ph.pp0.x == bounds.x_min - lsb
            &&& ph.pp1.x == ph.pp0.x + advance
            &&& ph.pp2.y == bounds.y_max + (ascender - bounds.y_max)
            &&& ph.pp3.y == ph.pp2.y - (ascender - descender)
        }),
{
}

/// The unscaled-draw output of a simple glyph at the default variation
/// position, with the saturation bounds discharged: each output
/// coordinate is the font-unit integer reinterpreted in 26.6, x re-based
/// by `x_min - lsb`.
pub proof fn lemma_unscaled_output_exact(o: Outlines, s: SimpleGlyph, gid: u16, j: int)
    requires
        o.hvar is None,
        wf_glyph(Glyph::Simple(s)),
        0 <= j < s.points@.len(),
    ensures
        ({
            let lsb = spec_metric_for(o.metrics@, gid).lsb as int;
            let base = s.bounds.x_min - lsb;
            spec_unscaled_simple_out(o, Seq::empty(), s, gid, j) == (Point {
                x: ((s.points@[j].x - base) * 64) as i32,
                y: (s.points@[j].y * 64) as i32,
            })
        }),
{
}

/// An arena allocated from a sizing result meets the fill pass's own
/// measure of that glyph tree, so a draw over it can never report
/// insufficient memory: sizing and scaling agree on the same font state.
pub proof fn lemma_sized_arena_fits(o: Outline, m: OutlineMemory, info: SizeInfo)
    requires
        o.points == outline_points(info),
        o.contours == info.contours,
        o.max_other_points == info.max_other,
        o.max_component_delta_stack == info.stack,
        m.scaled.len() == o.points,
        m.flags.len() == o.points,
        m.contours.len() == o.contours,
        m.unscaled.len() == o.max_other_points,
        m.deltas.len() == o.max_other_points,
        m.original_scaled.len() == o.max_other_points,
        m.composite_deltas.len() == o.max_component_delta_stack,
        0 < info.points <= 0x7FFF_FFFF,
        0 <= info.contours <= 0x7FFF_FFFF,
        0 <= info.max_other <= 0x7FFF_FFFF,
        0 <= info.stack <= 0x7FFF_FFFF,
    ensures
        arena_fits(m, 0, 0, 0, info),
{
}


} // verus!
