//! The read-only aggregator over a font's tables, and the outline sizing
//! pass: one recursive walk of the glyph tree that computes exact buffer
//! sizes and structural flags without writing any points.
//!
//! The walk is mirrored by the spec functions `glyph_size` and
//! `comps_size`, and the executable pass is proved to return exactly what
//! the mirror says. Totals saturate at `usize::MAX` (a composite graph
//! can reference the same subtree from every component, so totals have no
//! format-imposed bound); `sat_usize` pins the saturated value.

use vstd::prelude::*;

use crate::error::DrawError;
use crate::fixed::{div26, spec_div26, UNSCALED_FACTOR};
use crate::model::{
    wf_glyphs, Component, CompositeGlyph, FontData, Glyph, LongMetric, SimpleGlyph,
    OVERLAP_SIMPLE,
};

verus! {

/// Nesting depth past which a composite walk fails: the defense against
/// cyclic composite references, which the font format does not rule out.
pub const COMPOSITE_RECURSION_LIMIT: u32 = 32;

/// Clamp of an unbounded nonnegative count into the `usize` range.
pub open spec fn sat_usize(x: int) -> int {
    if x > usize::MAX {
        usize::MAX as int
    } else {
        x
    }
}

/// Saturating sum of two counts.
pub fn sat_add(a: usize, b: usize) -> (r: usize)
    ensures
        r == sat_usize(a + b),
{
    if b > usize::MAX - a {
        usize::MAX
    } else {
        a + b
    }
}

/// The larger of two counts.
pub fn max_usize(a: usize, b: usize) -> (r: usize)
    ensures
        r == if a >= b { a as int } else { b as int },
{
    if a >= b {
        a
    } else {
        b
    }
}

/// What one level of the sizing pass learns about a glyph subtree.
pub ghost struct SizeInfo {
    /// Real outline points in the subtree, phantom points not counted.
    pub points: int,
    /// Contours in the subtree.
    pub contours: int,
    /// Some glyph in the subtree carries non-empty bytecode.
    pub hinted: bool,
    /// Some simple glyph's first point or some component declares overlap.
    pub overlaps: bool,
    /// Largest single-level point budget (real + phantom) seen.
    pub max_other: int,
    /// Largest nested component-delta stack (components + 4 per level).
    pub stack: int,
}

pub open spec fn empty_size() -> SizeInfo {
    SizeInfo { points: 0, contours: 0, hinted: false, overlaps: false, max_other: 0, stack: 0 }
}

pub open spec fn simple_size(s: SimpleGlyph) -> SizeInfo {
    SizeInfo {
        points: s.points.len() as int,
        contours: s.contour_ends.len() as int,
        hinted: s.instructions.len() > 0,
        overlaps: s.flags.len() > 0 && s.flags[0] & OVERLAP_SIMPLE != 0,
        max_other: sat_usize(s.points.len() + 4),
        stack: 0,
    }
}

/// Folding one component's subtree into the running composite totals.
pub open spec fn combine_size(acc: SizeInfo, comp: Component, child: SizeInfo) -> SizeInfo {
    SizeInfo {
        points: sat_usize(acc.points + child.points),
        contours: sat_usize(acc.contours + child.contours),
        hinted: acc.hinted || child.hinted,
        overlaps: acc.overlaps || child.overlaps || comp.overlap,
        max_other: if acc.max_other >= child.max_other {
            acc.max_other
        } else {
            child.max_other
        },
        stack: if acc.stack >= child.stack {
            acc.stack
        } else {
            child.stack
        },
    }
}

/// A composite's own contribution, once its components are folded: its
/// bytecode flag, the widened scratch budget when that bytecode will run
/// over all gathered points, and this level's component-delta stack.
pub open spec fn composite_wrap(c: CompositeGlyph, folded: SizeInfo) -> SizeInfo {
    SizeInfo {
        points: folded.points,
        contours: folded.contours,
        hinted: folded.hinted || c.instructions.len() > 0,
        overlaps: folded.overlaps,
        max_other: if c.instructions.len() > 0 && sat_usize(folded.points + 4)
            > folded.max_other {
            sat_usize(folded.points + 4)
        } else {
            folded.max_other
        },
        stack: sat_usize(c.components.len() + 4 + folded.stack),
    }
}

/// Lookup with out-of-range ids reading as absent: validity is enforced
/// by lookup, not by the id type, and an absent glyph is a valid empty one.
pub open spec fn glyph_at(glyphs: Seq<Option<Glyph>>, gid: u16) -> Option<Glyph> {
    if gid < glyphs.len() {
        glyphs[gid as int]
    } else {
        None
    }
}

/// The sizing pass over one glyph subtree. `Err` carries the glyph id at
/// which the nesting limit was exceeded.
pub open spec fn glyph_size(glyphs: Seq<Option<Glyph>>, gid: u16, depth: int) -> Result<
    SizeInfo,
    u16,
>
    decreases COMPOSITE_RECURSION_LIMIT + 1 - depth, 0int, 0int,
    when 0 <= depth <= COMPOSITE_RECURSION_LIMIT + 1
{
    match glyph_at(glyphs, gid) {
        None => Ok(empty_size()),
        Some(g) => {
            if depth > COMPOSITE_RECURSION_LIMIT {
                Err(gid)
            } else {
                match g {
                    Glyph::Simple(s) => Ok(simple_size(s)),
                    Glyph::Composite(c) => match comps_size(
                        glyphs,
                        c.components@,
                        c.components@.len() as int,
                        depth + 1,
                    ) {
                        Ok(folded) => Ok(composite_wrap(c, folded)),
                        Err(e) => Err(e),
                    },
                }
            }
        },
    }
}

/// The fold of the first `n` components of a composite, children sized at
/// depth `depth`; the first failing component in declared order decides.
pub open spec fn comps_size(
    glyphs: Seq<Option<Glyph>>,
    comps: Seq<Component>,
    n: int,
    depth: int,
) -> Result<SizeInfo, u16>
    decreases COMPOSITE_RECURSION_LIMIT + 1 - depth, 1int, n,
    when 0 <= depth <= COMPOSITE_RECURSION_LIMIT + 1 && n <= comps.len()
{
    if n <= 0 {
        Ok(empty_size())
    } else {
        match comps_size(glyphs, comps, n - 1, depth) {
            Err(e) => Err(e),
            Ok(acc) => match glyph_size(glyphs, comps[n - 1].glyph_id, depth) {
                Err(e) => Err(e),
                Ok(child) => Ok(combine_size(acc, comps[n - 1], child)),
            },
        }
    }
}

/// Once the component fold fails, every longer fold fails the same way.
pub proof fn lemma_comps_size_err(
    glyphs: Seq<Option<Glyph>>,
    comps: Seq<Component>,
    i: int,
    n: int,
    depth: int,
)
    requires
        0 <= i <= n <= comps.len(),
        0 <= depth <= COMPOSITE_RECURSION_LIMIT + 1,
        comps_size(glyphs, comps, i, depth) is Err,
    ensures
        comps_size(glyphs, comps, n, depth) == comps_size(glyphs, comps, i, depth),
    decreases n - i,
{
    if n > i {
        lemma_comps_size_err(glyphs, comps, i, n - 1, depth);
    }
}



/// Every size a successful walk reports is nonnegative.
pub proof fn lemma_glyph_size_nonneg(glyphs: Seq<Option<Glyph>>, gid: u16, depth: int)
    requires
        0 <= depth <= COMPOSITE_RECURSION_LIMIT + 1,
        glyph_size(glyphs, gid, depth) is Ok,
    ensures
        glyph_size(glyphs, gid, depth) matches Ok(info) && {
            &&& info.points >= 0
            &&& info.contours >= 0
            &&& info.max_other >= 0
            &&& info.stack >= 0
        },
    decreases COMPOSITE_RECURSION_LIMIT + 1 - depth, 0int, 0int,
{
    match glyph_at(glyphs, gid) {
        Some(Glyph::Composite(c)) => {
            lemma_comps_size_nonneg(glyphs, c.components@, c.components@.len() as int, depth + 1);
        },
        _ => {},
    }
}

pub proof fn lemma_comps_size_nonneg(
    glyphs: Seq<Option<Glyph>>,
    comps: Seq<Component>,
    n: int,
    depth: int,
)
    requires
        0 <= n <= comps.len(),
        0 <= depth <= COMPOSITE_RECURSION_LIMIT + 1,
        comps_size(glyphs, comps, n, depth) is Ok,
    ensures
        comps_size(glyphs, comps, n, depth) matches Ok(acc) && {
            &&& acc.points >= 0
            &&& acc.contours >= 0
            &&& acc.max_other >= 0
            &&& acc.stack >= 0
        },
    decreases COMPOSITE_RECURSION_LIMIT + 1 - depth, 1int, n,
{
    if n > 0 {
        if comps_size(glyphs, comps, n - 1, depth) is Err {
            lemma_comps_size_err(glyphs, comps, n - 1, n, depth);
            assert(false);
        }
        lemma_comps_size_nonneg(glyphs, comps, n - 1, depth);
        lemma_glyph_size_nonneg(glyphs, comps[n - 1].glyph_id, depth);
    }
}

/// Once the whole component fold succeeds, every prefix succeeds with
/// totals no larger than the whole: the fold only grows.
pub proof fn lemma_comps_size_monotone(
    glyphs: Seq<Option<Glyph>>,
    comps: Seq<Component>,
    i: int,
    n: int,
    depth: int,
)
    requires
        0 <= i <= n <= comps.len(),
        0 <= depth <= COMPOSITE_RECURSION_LIMIT + 1,
        comps_size(glyphs, comps, n, depth) is Ok,
    ensures
        comps_size(glyphs, comps, i, depth) matches Ok(acc) && comps_size(glyphs, comps, n, depth)
            matches Ok(whole) && {
            &&& acc.points <= whole.points
            &&& acc.contours <= whole.contours
            &&& acc.max_other <= whole.max_other
            &&& acc.stack <= whole.stack
        },
    decreases n - i,
{
    if i < n {
        if comps_size(glyphs, comps, n - 1, depth) is Err {
            lemma_comps_size_err(glyphs, comps, n - 1, n, depth);
            assert(false);
        }
        lemma_comps_size_monotone(glyphs, comps, i, n - 1, depth);
        if glyph_size(glyphs, comps[n - 1].glyph_id, depth) is Ok {
            lemma_glyph_size_nonneg(glyphs, comps[n - 1].glyph_id, depth);
        }
    }
}

/// The executable mirror of `SizeInfo`, with saturated counts.
pub struct SizeRec {
    pub points: usize,
    pub contours: usize,
    pub hinted: bool,
    pub overlaps: bool,
    pub max_other: usize,
    pub stack: usize,
}

impl View for SizeRec {
    type V = SizeInfo;

    open spec fn view(&self) -> SizeInfo {
        SizeInfo {
            points: self.points as int,
            contours: self.contours as int,
            hinted: self.hinted,
            overlaps: self.overlaps,
            max_other: self.max_other as int,
            stack: self.stack as int,
        }
    }
}

/// Per-glyph structural summary produced by the sizing pass: everything
/// the caller needs to allocate an arena and run the fill pass.
#[derive(Clone, Copy, PartialEq, Eq, Structural, Debug)]
pub struct Outline {
    /// The sized glyph; also the handle the fill pass loads again.
    pub glyph_id: u16,
    /// Total point budget: real points plus 4 phantom points, or 0 for a
    /// glyph with no outline at all.
    pub points: usize,
    /// Total contour count.
    pub contours: usize,
    /// Some glyph in the tree carries hinting bytecode.
    pub has_hinting: bool,
    /// Some simple glyph's first-point flag or some component declares
    /// overlapping contours.
    pub has_overlaps: bool,
    /// Scratch budget for one level's unscaled data (real + phantom).
    pub max_other_points: usize,
    /// Deepest nested component-delta stack.
    pub max_component_delta_stack: usize,
    /// Control-value-table entries the hinting state must hold.
    pub cvt_count: usize,
    /// Storage slots the hinting state must hold.
    pub storage_count: usize,
    /// Twilight points the hinting state must hold.
    pub twilight_count: usize,
    /// Interpreter stack slots the hinting state must hold.
    pub stack_count: usize,
    /// The font carries per-point variation data.
    pub has_variations: bool,
}

/// The spec-level point budget of a sized outline: phantom points are
/// added only when the glyph has any real point.
pub open spec fn outline_points(info: SizeInfo) -> int {
    if info.points > 0 {
        sat_usize(info.points + 4)
    } else {
        0
    }
}

/// Immutable, cloneable, read-only view over one font's tables and the
/// scalar limits derived from them. Created once per font.
#[derive(Clone, Debug)]
pub struct Outlines {
    pub glyphs: Vec<Option<Glyph>>,
    pub metrics: Vec<LongMetric>,
    pub units_per_em: u16,
    pub ascender: i16,
    pub descender: i16,
    pub max_function_defs: u16,
    pub max_instruction_defs: u16,
    /// Twilight points: the `maxp` value plus 4 phantom points.
    pub max_twilight_points: u32,
    /// Stack elements: the `maxp` value plus a defensive margin of 32 for
    /// malformed fonts.
    pub max_stack_elements: u32,
    pub max_storage: u16,
    pub gvar: Option<crate::model::GvarTable>,
    pub hvar: Option<crate::model::HvarTable>,
    pub cvar: Option<crate::model::CvarTable>,
    pub fpgm: Vec<u8>,
    pub prep: Vec<u8>,
    pub cvt: Vec<i32>,
}

impl Outlines {
    /// What construction established: the accessor layer's guarantees on
    /// the glyph table.
    pub open spec fn wf(self) -> bool {
        wf_glyphs(self.glyphs@)
    }

    /// Builds the aggregator, failing when a required table (the merged
    /// `loca`/`glyf` view, `hmtx`, or `head`) is absent; optional tables
    /// are stored present-or-absent.
    pub fn new(font: FontData) -> (r: Option<Outlines>)
        requires
            font.glyf matches Some(g) ==> wf_glyphs(g@),
        ensures
            r is Some <==> font.glyf is Some && font.hmtx is Some
                && font.head_units_per_em is Some,
            r matches Some(o) ==> {
                &&& o.wf()
                &&& font.glyf matches Some(g) && o.glyphs@ == g@
                &&& font.hmtx matches Some(m) && o.metrics@ == m@
                &&& font.head_units_per_em matches Some(u) && o.units_per_em == u
                &&& o.ascender == font.ascender
                &&& o.descender == font.descender
                &&& o.max_function_defs == font.limits.max_function_defs
                &&& o.max_instruction_defs == font.limits.max_instruction_defs
                &&& o.max_twilight_points == font.limits.max_twilight_points + 4
                &&& o.max_stack_elements == font.limits.max_stack_elements + 32
                &&& o.max_storage == font.limits.max_storage
                &&& o.gvar is Some <==> font.gvar is Some
                &&& o.hvar is Some <==> font.hvar is Some
                &&& o.cvar is Some <==> font.cvar is Some
                &&& o.fpgm@ == font.fpgm@
                &&& o.prep@ == font.prep@
                &&& o.cvt@ == font.cvt@
            },
    {
        let FontData {
            glyf,
            hmtx,
            head_units_per_em,
            ascender,
            descender,
            limits,
            gvar,
            hvar,
            cvar,
            fpgm,
            prep,
            cvt,
        } = font;
        match (glyf, hmtx, head_units_per_em) {
            (Some(glyphs), Some(metrics), Some(units_per_em)) => Some(
                Outlines {
                    glyphs,
                    metrics,
                    units_per_em,
                    ascender,
                    descender,
                    max_function_defs: limits.max_function_defs,
                    max_instruction_defs: limits.max_instruction_defs,
                    max_twilight_points: limits.max_twilight_points as u32 + 4,
                    max_stack_elements: limits.max_stack_elements as u32 + 32,
                    max_storage: limits.max_storage,
                    gvar,
                    hvar,
                    cvar,
                    fpgm,
                    prep,
                    cvt,
                },
            ),
            _ => None,
        }
    }

    /// The table-declared glyph count.
    pub fn glyph_count(&self) -> (r: usize)
        ensures
            r == self.glyphs@.len(),
    {
        self.glyphs.len()
    }

    /// The scale factor for a requested size: `(is_scaled, factor)`. With
    /// a size and a positive em count, the 26.6 factor taking one font
    /// unit to `ppem * 64 / units_per_em`; otherwise the identity
    /// sentinel `UNSCALED_FACTOR` with `is_scaled` false.
    pub fn compute_scale(&self, ppem: Option<u32>) -> (r: (bool, i32))
        requires
            ppem matches Some(p) ==> p <= 0x0400_0000,
        ensures
            r == spec_compute_scale(self.units_per_em as int, ppem),
    {
        match ppem {
            Some(p) => {
                if self.units_per_em > 0 {
                    (true, div26((p as i64) * 64, self.units_per_em as i64))
                } else {
                    (false, UNSCALED_FACTOR)
                }
            },
            None => (false, UNSCALED_FACTOR),
        }
    }

    /// The horizontal metric for a glyph, clamped to the table's last
    /// entry when the table is shorter than the glyph count (the
    /// monospaced-tail convention); zero metrics for an empty table.
    pub fn metric_for(&self, glyph_id: u16) -> (r: LongMetric)
        ensures
            r == spec_metric_for(self.metrics@, glyph_id),
    {
        if self.metrics.len() == 0 {
            LongMetric { advance: 0, lsb: 0 }
        } else if (glyph_id as usize) < self.metrics.len() {
            self.metrics[glyph_id as usize]
        } else {
            self.metrics[self.metrics.len() - 1]
        }
    }

    /// The sizing pass (pass 1): a read-only recursive walk starting at
    /// depth 0, failing only when composite nesting exceeds the limit.
    pub fn outline(&self, glyph_id: u16) -> (r: Result<Outline, DrawError>)
        requires
            self.wf(),
        ensures
            match r {
                Ok(o) => glyph_size(self.glyphs@, glyph_id, 0) matches Ok(info) && {
                    &&& o.glyph_id == glyph_id
                    &&& o.points == outline_points(info)
                    &&& o.contours == info.contours
                    &&& o.has_hinting == info.hinted
                    &&& o.has_overlaps == info.overlaps
                    &&& o.max_other_points == info.max_other
                    &&& o.max_component_delta_stack == info.stack
                    &&& o.cvt_count == self.cvt@.len()
                    &&& o.storage_count == self.max_storage
                    &&& o.twilight_count == self.max_twilight_points
                    &&& o.stack_count == self.max_stack_elements
                    &&& o.has_variations == self.gvar is Some
                },
                Err(e) => glyph_size(self.glyphs@, glyph_id, 0) matches Err(g)
                    && e == DrawError::RecursionLimitExceeded(g),
            },
    {
        match self.size_glyph(glyph_id, 0) {
            Err(e) => Err(e),
            Ok(rec) => {
                let points: usize = if rec.points > 0 {
                    sat_add(rec.points, 4)
                } else {
                    0
                };
                Ok(
                    Outline {
                        glyph_id,
                        points,
                        contours: rec.contours,
                        has_hinting: rec.hinted,
                        has_overlaps: rec.overlaps,
                        max_other_points: rec.max_other,
                        max_component_delta_stack: rec.stack,
                        cvt_count: self.cvt.len(),
                        storage_count: self.max_storage as usize,
                        twilight_count: self.max_twilight_points as usize,
                        stack_count: self.max_stack_elements as usize,
                        has_variations: matches!(self.gvar, Some(_)),
                    },
                )
            },
        }
    }

    fn size_glyph(&self, gid: u16, depth: u32) -> (r: Result<SizeRec, DrawError>)
        requires
            self.wf(),
            depth <= COMPOSITE_RECURSION_LIMIT + 1,
        ensures
            match r {
                Ok(rec) => glyph_size(self.glyphs@, gid, depth as int) == Ok::<SizeInfo, u16>(
                    rec@,
                ),
                Err(e) => glyph_size(self.glyphs@, gid, depth as int) matches Err(g) && e
                    == DrawError::RecursionLimitExceeded(g),
            },
        decreases COMPOSITE_RECURSION_LIMIT + 1 - depth,
    {
        // An absent glyph is a valid empty one and never consumes
        // recursion depth; only present glyphs face the nesting limit.
        if gid as usize >= self.glyphs.len() {
            return Ok(
                SizeRec {
                    points: 0,
                    contours: 0,
                    hinted: false,
                    overlaps: false,
                    max_other: 0,
                    stack: 0,
                },
            );
        }
        match &self.glyphs[gid as usize] {
            None => Ok(
                SizeRec {
                    points: 0,
                    contours: 0,
                    hinted: false,
                    overlaps: false,
                    max_other: 0,
                    stack: 0,
                },
            ),
            Some(_) if depth > COMPOSITE_RECURSION_LIMIT => Err(
                DrawError::RecursionLimitExceeded(gid),
            ),
            Some(Glyph::Simple(s)) => {
                let overlaps: bool = s.flags.len() > 0 && s.flags[0] & OVERLAP_SIMPLE != 0;
                Ok(
                    SizeRec {
                        points: s.points.len(),
                        contours: s.contour_ends.len(),
                        hinted: s.instructions.len() > 0,
                        overlaps,
                        max_other: sat_add(s.points.len(), 4),
                        stack: 0,
                    },
                )
            },
            Some(Glyph::Composite(c)) => {
                let ghost comps = c.components@;
                let mut acc = SizeRec {
                    points: 0,
                    contours: 0,
                    hinted: false,
                    overlaps: false,
                    max_other: 0,
                    stack: 0,
                };
                let mut i: usize = 0;
                while i < c.components.len()
                    invariant
                        self.wf(),
                        depth < COMPOSITE_RECURSION_LIMIT + 1,
                        0 <= i <= comps.len(),
                        comps == c.components@,
                        self.glyphs@[gid as int] == Some(Glyph::Composite(*c)),
                        gid < self.glyphs@.len(),
                        comps_size(self.glyphs@, comps, i as int, depth + 1) == Ok::<
                            SizeInfo,
                            u16,
                        >(acc@),
                    decreases comps.len() - i,
                {
                    let comp_gid: u16 = c.components[i].glyph_id;
                    match self.size_glyph(comp_gid, depth + 1) {
                        Err(e) => {
                            proof {
                                lemma_comps_size_err(
                                    self.glyphs@,
                                    comps,
                                    i as int + 1,
                                    comps.len() as int,
                                    depth as int + 1,
                                );
                            }
                            return Err(e);
                        },
                        Ok(child) => {
                            let overlaps: bool = acc.overlaps || child.overlaps
                                || c.components[i].overlap;
                            acc = SizeRec {
                                points: sat_add(acc.points, child.points),
                                contours: sat_add(acc.contours, child.contours),
                                hinted: acc.hinted || child.hinted,
                                overlaps,
                                max_other: max_usize(acc.max_other, child.max_other),
                                stack: max_usize(acc.stack, child.stack),
                            };
                        },
                    }
                    i = i + 1;
                }
                let own_hint: bool = c.instructions.len() > 0;
                let widened: usize = if own_hint {
                    max_usize(acc.max_other, sat_add(acc.points, 4))
                } else {
                    acc.max_other
                };
                let stack: usize = sat_add(sat_add(c.components.len(), 4), acc.stack);
                Ok(
                    SizeRec {
                        points: acc.points,
                        contours: acc.contours,
                        hinted: acc.hinted || own_hint,
                        overlaps: acc.overlaps,
                        max_other: widened,
                        stack,
                    },
                )
            },
        }
    }
}

/// The scale decision: identity sentinel when no size is given or the em
/// count is zero; otherwise the saturated 26.6 quotient.
pub open spec fn spec_compute_scale(upem: int, ppem: Option<u32>) -> (bool, i32) {
    match ppem {
        Some(p) => {
            if upem > 0 {
                (true, spec_div26(p as int * 64, upem) as i32)
            } else {
                (false, UNSCALED_FACTOR)
            }
        },
        None => (false, UNSCALED_FACTOR),
    }
}

/// The clamped metric lookup.
pub open spec fn spec_metric_for(metrics: Seq<LongMetric>, glyph_id: u16) -> LongMetric {
    if metrics.len() == 0 {
        LongMetric { advance: 0, lsb: 0 }
    } else if glyph_id < metrics.len() {
        metrics[glyph_id as int]
    } else {
        metrics[metrics.len() - 1]
    }
}

} // verus!
