//! The variation-delta component: interpolation of per-point and
//! per-metric adjustments from a font's variation data at the current
//! normalized design-space coordinates.
//!
//! Scalars are 2.14 fixed point, one per region, the product of one
//! standard scalar per axis; contributions `scalar * delta` accumulate
//! without intermediate rounding and are rounded (per-point deltas) or
//! truncated toward zero (metric deltas) once at the end.
//!
//! Delta tuples arrive dense (see `GlyphDeltas`): inferring the deltas
//! of points a sparse tuple leaves out is the accessor layer's business,
//! so no interpolation working buffer is needed here.

use vstd::prelude::*;

use crate::fixed::{acc62, div14, floor_div, mul14, mul_wide, round14, sat32, sat62,
    spec_mul14, trunc14, trunc_div};
use crate::model::{GlyphDeltas, MetricDelta, Point, Region, RegionAxis};

verus! {

/// The 2.14 bit pattern of 1.0.
pub const ONE_2_14: i32 = 0x4000;

/// The standard per-axis scalar. A degenerate axis (entries outside the
/// 2.14 range, a peak outside `[start, end]`, a span crossing zero, or a
/// zero peak) constrains nothing and reads as 1.0.
pub open spec fn spec_axis_scalar(coord: int, a: RegionAxis) -> int {
    if !(-0x4000 <= a.start <= a.peak <= a.end <= 0x4000) {
        0x4000
    } else if a.start < 0 && a.end > 0 && a.peak != 0 {
        0x4000
    } else if a.peak == 0 {
        0x4000
    } else if coord < a.start || coord > a.end {
        0
    } else if coord == a.peak {
        0x4000
    } else if coord < a.peak {
        sat32((coord - a.start) * 0x4000 / (a.peak - a.start))
    } else {
        sat32((a.end - coord) * 0x4000 / (a.end - a.peak))
    }
}

pub fn axis_scalar(coord: i32, a: RegionAxis) -> (r: i32)
    requires
        -0x4000 <= coord <= 0x4000,
    ensures
        r == spec_axis_scalar(coord as int, a),
{
    if !(-0x4000 <= a.start && a.start <= a.peak && a.peak <= a.end && a.end <= 0x4000) {
        ONE_2_14
    } else if a.start < 0 && a.end > 0 && a.peak != 0 {
        ONE_2_14
    } else if a.peak == 0 {
        ONE_2_14
    } else if coord < a.start || coord > a.end {
        0
    } else if coord == a.peak {
        ONE_2_14
    } else if coord < a.peak {
        div14(coord - a.start, a.peak - a.start)
    } else {
        div14(a.end - coord, a.end - a.peak)
    }
}

/// The coordinate for axis `i`: absent trailing coordinates read as the
/// default position.
pub open spec fn coord_at(coords: Seq<i32>, i: int) -> int {
    if 0 <= i < coords.len() {
        coords[i] as int
    } else {
        0
    }
}

/// The 2.14 scalar of a region: the product of its axis scalars.
pub open spec fn spec_region_scalar(coords: Seq<i32>, axes: Seq<RegionAxis>, n: int) -> int
    decreases n,
{
    if n <= 0 {
        0x4000
    } else {
        spec_mul14(
            spec_region_scalar(coords, axes, n - 1),
            spec_axis_scalar(coord_at(coords, n - 1), axes[n - 1]),
        )
    }
}

pub fn region_scalar(coords: &Vec<i32>, region: &Region) -> (r: i32)
    requires
        forall|i: int| 0 <= i < coords@.len() ==> -0x4000 <= #[trigger] coords@[i] <= 0x4000,
    ensures
        r == spec_region_scalar(coords@, region.axes@, region.axes@.len() as int),
{
    let mut acc: i32 = ONE_2_14;
    let mut i: usize = 0;
    while i < region.axes.len()
        invariant
            0 <= i <= region.axes@.len(),
            acc == spec_region_scalar(coords@, region.axes@, i as int),
            forall|j: int| 0 <= j < coords@.len() ==> -0x4000 <= #[trigger] coords@[j] <= 0x4000,
        decreases region.axes@.len() - i,
    {
        let coord: i32 = if i < coords.len() {
            coords[i]
        } else {
            0
        };
        acc = mul14(acc, axis_scalar(coord, region.axes[i]));
        i = i + 1;
    }
    acc
}

/// The 2.14-scaled accumulation of one point coordinate's delta over the
/// first `t` tuples; tuples whose delta array does not cover `count`
/// points contribute nothing (variation data is best effort).
pub open spec fn delta_acc(
    coords: Seq<i32>,
    tuples: Seq<GlyphDeltas>,
    count: int,
    i: int,
    t: int,
    x_axis: bool,
) -> int
    decreases t,
{
    if t <= 0 {
        0
    } else {
        let prev = delta_acc(coords, tuples, count, i, t - 1, x_axis);
        let tup = tuples[t - 1];
        if tup.deltas.len() == count && 0 <= i < count {
            let s = spec_region_scalar(coords, tup.region.axes@, tup.region.axes@.len() as int);
            let d = if x_axis {
                tup.deltas[i].x as int
            } else {
                tup.deltas[i].y as int
            };
            sat62(prev + s * d)
        } else {
            prev
        }
    }
}

/// The rounded delta for one point over all tuples.
pub open spec fn spec_point_delta(coords: Seq<i32>, tuples: Seq<GlyphDeltas>, count: int, i: int)
    -> Point {
    Point {
        x: sat32(
            floor_div(delta_acc(coords, tuples, count, i, tuples.len() as int, true) + 0x2000, 0x4000),
        ) as i32,
        y: sat32(
            floor_div(delta_acc(coords, tuples, count, i, tuples.len() as int, false) + 0x2000, 0x4000),
        ) as i32,
    }
}

/// Interpolates one delta per point (the glyph's real points followed by
/// its 4 phantom points, or a composite's components followed by the 4
/// phantom points) from the glyph's delta tuples, into the arena window
/// `out[base .. base + count]`.
pub fn fill_point_deltas(
    coords: &Vec<i32>,
    tuples: &Vec<GlyphDeltas>,
    count: usize,
    out: &mut Vec<Point>,
    base: usize,
) -> (done: bool)
    requires
        forall|i: int| 0 <= i < coords@.len() ==> -0x4000 <= #[trigger] coords@[i] <= 0x4000,
    ensures
        final(out)@.len() == old(out)@.len(),
        done <==> base + count <= old(out)@.len(),
        forall|k: int|
            0 <= k < old(out)@.len() && !(base <= k < base + count)
                ==> #[trigger] final(out)@[k] == old(out)@[k],
        done ==> forall|i: int|
            0 <= i < count ==> #[trigger] final(out)@[base + i] == spec_point_delta(
                coords@,
                tuples@,
                count as int,
                i,
            ),
{
    if count > out.len() || base > out.len() - count {
        return false;
    }
    let mut i: usize = 0;
    while i < count
        invariant
            0 <= i <= count,
            base + count <= out@.len(),
            out@.len() <= usize::MAX,
            out@.len() == old(out)@.len(),
            forall|k: int|
                0 <= k < old(out)@.len() && !(base <= k < base + count) ==> #[trigger] out@[k]
                    == old(out)@[k],
            forall|k: int|
                0 <= k < i ==> #[trigger] out@[base + k] == spec_point_delta(
                    coords@,
                    tuples@,
                    count as int,
                    k,
                ),
            forall|j: int| 0 <= j < coords@.len() ==> -0x4000 <= #[trigger] coords@[j] <= 0x4000,
        decreases count - i,
    {
        let mut ax: i64 = 0;
        let mut ay: i64 = 0;
        let mut t: usize = 0;
        while t < tuples.len()
            invariant
                0 <= t <= tuples@.len(),
                0 <= i < count,
                ax == delta_acc(coords@, tuples@, count as int, i as int, t as int, true),
                ay == delta_acc(coords@, tuples@, count as int, i as int, t as int, false),
                -0x4000_0000_0000_0000 <= ax <= 0x4000_0000_0000_0000,
                -0x4000_0000_0000_0000 <= ay <= 0x4000_0000_0000_0000,
                forall|j: int|
                    0 <= j < coords@.len() ==> -0x4000 <= #[trigger] coords@[j] <= 0x4000,
            decreases tuples@.len() - t,
        {
            let tup = &tuples[t];
            if tup.deltas.len() == count {
                let s: i32 = region_scalar(coords, &tup.region);
                let d = tup.deltas[i];
                ax = acc62(ax, mul_wide(s, d.x));
                ay = acc62(ay, mul_wide(s, d.y));
            }
            t = t + 1;
        }
        out[base + i] = Point { x: round14(ax), y: round14(ay) };
        i = i + 1;
    }
    true
}

/// The 2.14-scaled accumulation of a metric delta over the first `t`
/// delta sets.
pub open spec fn metric_acc(coords: Seq<i32>, dsets: Seq<MetricDelta>, t: int) -> int
    decreases t,
{
    if t <= 0 {
        0
    } else {
        let prev = metric_acc(coords, dsets, t - 1);
        let ds = dsets[t - 1];
        let s = spec_region_scalar(coords, ds.region.axes@, ds.region.axes@.len() as int);
        sat62(prev + s * ds.delta)
    }
}

/// The interpolated metric delta, truncated toward zero as the legacy
/// rasterizer truncates variable advance and side-bearing adjustments.
pub open spec fn spec_metric_delta(coords: Seq<i32>, dsets: Seq<MetricDelta>) -> int {
    sat32(trunc_div(metric_acc(coords, dsets, dsets.len() as int), 0x4000))
}

pub fn metric_delta(coords: &Vec<i32>, dsets: &Vec<MetricDelta>) -> (r: i32)
    requires
        forall|i: int| 0 <= i < coords@.len() ==> -0x4000 <= #[trigger] coords@[i] <= 0x4000,
    ensures
        r == spec_metric_delta(coords@, dsets@),
{
    let mut acc: i64 = 0;
    let mut t: usize = 0;
    while t < dsets.len()
        invariant
            0 <= t <= dsets@.len(),
            acc == metric_acc(coords@, dsets@, t as int),
            -0x4000_0000_0000_0000 <= acc <= 0x4000_0000_0000_0000,
            forall|j: int| 0 <= j < coords@.len() ==> -0x4000 <= #[trigger] coords@[j] <= 0x4000,
        decreases dsets@.len() - t,
    {
        let ds = &dsets[t];
        let s: i32 = region_scalar(coords, &ds.region);
        acc = acc62(acc, mul_wide(s, ds.delta));
        t = t + 1;
    }
    trunc14(acc)
}

} // verus!
