use glyf_scaler::error::DrawError;
use glyf_scaler::memory::OutlineMemory;
use glyf_scaler::model::{
    Anchor, Bounds, Component, CompositeGlyph, FontData, Glyph, GlyphDeltas, GvarTable,
    HvarTable, LongMetric, MaxpLimits, MetricDelta, Point, Region, RegionAxis, SimpleGlyph,
    Transform,
};
use glyf_scaler::outlines::Outlines;

fn simple_with(
    points: Vec<(i32, i32)>,
    b: (i32, i32, i32, i32),
) -> Glyph {
    let n = points.len();
    let ends = if n > 0 { vec![(n - 1) as u16] } else { vec![] };
    Glyph::Simple(SimpleGlyph {
        bounds: Bounds { x_min: b.0, y_min: b.1, x_max: b.2, y_max: b.3 },
        points: points.into_iter().map(|(x, y)| Point { x, y }).collect(),
        flags: vec![1u8; n],
        contour_ends: ends,
        instructions: vec![],
    })
}

fn font_with(glyphs: Vec<Option<Glyph>>, metrics: Vec<(u16, i16)>, upem: u16) -> FontData {
    FontData {
        glyf: Some(glyphs),
        hmtx: Some(
            metrics
                .into_iter()
                .map(|(advance, lsb)| LongMetric { advance, lsb })
                .collect(),
        ),
        head_units_per_em: Some(upem),
        ascender: 80,
        descender: -20,
        limits: MaxpLimits {
            max_function_defs: 0,
            max_instruction_defs: 0,
            max_twilight_points: 0,
            max_stack_elements: 0,
            max_storage: 0,
        },
        gvar: None,
        hvar: None,
        cvar: None,
        fpgm: vec![],
        prep: vec![],
        cvt: vec![],
    }
}

#[test]
fn compute_scale_unscaled_sentinel() {
    let o = Outlines::new(font_with(vec![None], vec![(0, 0)], 1000)).unwrap();
    assert_eq!(o.compute_scale(None), (false, 0x10000));
}

#[test]
fn compute_scale_zero_upem_is_unscaled() {
    let o = Outlines::new(font_with(vec![None], vec![(0, 0)], 0)).unwrap();
    assert_eq!(o.compute_scale(Some(12)), (false, 0x10000));
}

#[test]
fn compute_scale_exact_quotients() {
    let o = Outlines::new(font_with(vec![None], vec![(0, 0)], 2048)).unwrap();
    // ppem * 64 / upem carried in 26.6: 12 * 4096 / 2048.
    assert_eq!(o.compute_scale(Some(12)), (true, 24));
    let o = Outlines::new(font_with(vec![None], vec![(0, 0)], 1000)).unwrap();
    assert_eq!(o.compute_scale(Some(1000)), (true, 4096));
    let o = Outlines::new(font_with(vec![None], vec![(0, 0)], 64)).unwrap();
    assert_eq!(o.compute_scale(Some(32)), (true, 2048));
}

#[test]
fn unscaled_draw_reinterprets_font_units() {
    // Left side bearing 5 against x_min 2 re-bases every x by -3.
    let glyphs = vec![Some(simple_with(vec![(10, 20), (30, -40), (0, 5)], (2, 0, 60, 70)))];
    let o = Outlines::new(font_with(glyphs, vec![(100, 5)], 1000)).unwrap();
    let outline = o.outline(0).unwrap();
    let mut mem = OutlineMemory::new(&outline);
    let so = o.draw(&outline, &mut mem, &vec![], None).unwrap();
    assert_eq!(so.point_count, 3);
    assert_eq!(so.contour_count, 1);
    let base = 2 - 5;
    let expect = [(10, 20), (30, -40), (0, 5)];
    for (i, (x, y)) in expect.iter().enumerate() {
        assert_eq!(mem.scaled[i].x, (x - base) * 64);
        assert_eq!(mem.scaled[i].y, y * 64);
    }
    assert_eq!(mem.flags[0], 1);
    assert_eq!(mem.contours[0], 2);
}

#[test]
fn phantom_points_follow_metrics_and_bounds() {
    let glyphs = vec![Some(simple_with(vec![(10, 20)], (2, 0, 60, 70)))];
    let o = Outlines::new(font_with(glyphs, vec![(100, 5)], 1000)).unwrap();
    let outline = o.outline(0).unwrap();
    let mut mem = OutlineMemory::new(&outline);
    let so = o.draw(&outline, &mut mem, &vec![], None).unwrap();
    // pp0.x = x_min - lsb; pp1.x = pp0.x + advance; pp2.y = y_max + (asc -
    // y_max) = asc; pp3.y = pp2.y - (asc - desc) = desc. All in 26.6.
    assert_eq!(so.phantom.pp0.x, (2 - 5) * 64);
    assert_eq!(so.phantom.pp1.x, (2 - 5 + 100) * 64);
    assert_eq!(so.phantom.pp2.y, 80 * 64);
    assert_eq!(so.phantom.pp3.y, -20 * 64);
}

#[test]
fn scaled_draw_multiplies_by_factor() {
    let glyphs = vec![Some(simple_with(vec![(10, 20), (4, -6)], (2, 0, 60, 70)))];
    let o = Outlines::new(font_with(glyphs, vec![(100, 5)], 64)).unwrap();
    let outline = o.outline(0).unwrap();
    let mut mem = OutlineMemory::new(&outline);
    let so = o.draw(&outline, &mut mem, &vec![], Some(32)).unwrap();
    // factor 2048 halves: each font unit becomes 32/64ths of a pixel.
    // pp0 = mul26(-3, 2048) = floor(-95.5) = -96; output x = 32*raw + 96.
    assert_eq!(so.phantom.pp0.x, -96);
    assert_eq!(mem.scaled[0].x, 32 * 10 + 96);
    assert_eq!(mem.scaled[0].y, 32 * 20);
    assert_eq!(mem.scaled[1].x, 32 * 4 + 96);
    assert_eq!(mem.scaled[1].y, 32 * -6);
}

#[test]
fn metric_lookup_clamps_to_last_entry() {
    let glyphs = vec![
        Some(simple_with(vec![(1, 1)], (0, 0, 10, 10))),
        Some(simple_with(vec![(2, 2)], (0, 0, 10, 10))),
    ];
    // hmtx shorter than the glyph count: the monospaced-tail convention.
    let o = Outlines::new(font_with(glyphs, vec![(77, 0)], 1000)).unwrap();
    let outline = o.outline(1).unwrap();
    let mut mem = OutlineMemory::new(&outline);
    let so = o.draw(&outline, &mut mem, &vec![], None).unwrap();
    assert_eq!(so.phantom.pp1.x - so.phantom.pp0.x, 77 * 64);
}

fn full_region() -> Region {
    Region { axes: vec![] }
}

#[test]
fn hvar_advance_delta_is_truncated() {
    let glyphs = vec![Some(simple_with(vec![(1, 1)], (0, 0, 10, 10)))];
    let mut f = font_with(glyphs, vec![(100, 0)], 1000);
    f.hvar = Some(HvarTable {
        advance: vec![vec![MetricDelta { region: full_region(), delta: 7 }]],
        lsb: None,
    });
    let o = Outlines::new(f).unwrap();
    let outline = o.outline(0).unwrap();
    let mut mem = OutlineMemory::new(&outline);
    let so = o.draw(&outline, &mut mem, &vec![], None).unwrap();
    assert_eq!(so.phantom.pp1.x - so.phantom.pp0.x, (100 + 7) * 64);
}

#[test]
fn hvar_partial_scalar_truncates_toward_zero() {
    let glyphs = vec![Some(simple_with(vec![(1, 1)], (0, 0, 10, 10)))];
    let mut f = font_with(glyphs, vec![(100, 0)], 1000);
    let region = Region {
        axes: vec![RegionAxis { start: 0, peak: 0x2000, end: 0x4000 }],
    };
    f.hvar = Some(HvarTable {
        advance: vec![vec![MetricDelta { region, delta: 7 }]],
        lsb: None,
    });
    let o = Outlines::new(f).unwrap();
    let outline = o.outline(0).unwrap();
    let mut mem = OutlineMemory::new(&outline);
    // Halfway to the peak: scalar 0.5, contribution 3.5, truncated to 3.
    let so = o.draw(&outline, &mut mem, &vec![0x1000], None).unwrap();
    assert_eq!(so.phantom.pp1.x - so.phantom.pp0.x, (100 + 3) * 64);
}

#[test]
fn gvar_deltas_shift_points() {
    let glyphs = vec![Some(simple_with(vec![(10, 20), (30, 40), (50, 60)], (0, 0, 60, 70)))];
    let mut f = font_with(glyphs, vec![(100, 0)], 1000);
    let mut deltas = vec![Point { x: 5, y: -3 }; 3];
    deltas.extend(vec![Point { x: 0, y: 0 }; 4]);
    f.gvar = Some(GvarTable {
        glyph_deltas: vec![vec![GlyphDeltas { region: full_region(), deltas }]],
    });
    let o = Outlines::new(f).unwrap();
    let outline = o.outline(0).unwrap();
    assert!(outline.has_variations);
    let mut mem = OutlineMemory::new(&outline);
    let so = o.draw(&outline, &mut mem, &vec![0x4000], None).unwrap();
    assert_eq!(so.point_count, 3);
    let expect = [(10, 20), (30, 40), (50, 60)];
    for (i, (x, y)) in expect.iter().enumerate() {
        assert_eq!(mem.scaled[i].x, (x + 5) * 64);
        assert_eq!(mem.scaled[i].y, (y - 3) * 64);
    }
}

fn offset_component(glyph_id: u16, x: i32, y: i32) -> Component {
    Component {
        glyph_id,
        anchor: Anchor::Offset { x, y },
        transform: None,
        round_to_grid: false,
        use_my_metrics: false,
        overlap: false,
        scaled_offset: false,
    }
}

fn composite_of(components: Vec<Component>) -> Glyph {
    Glyph::Composite(CompositeGlyph {
        bounds: Bounds { x_min: 0, y_min: 0, x_max: 100, y_max: 100 },
        components,
        instructions: vec![],
    })
}

#[test]
fn composite_applies_literal_offset() {
    let glyphs = vec![
        Some(simple_with(vec![(10, 0)], (0, 0, 10, 10))),
        Some(composite_of(vec![offset_component(0, 100, 10)])),
    ];
    let o = Outlines::new(font_with(glyphs, vec![(50, 0), (50, 0)], 1000)).unwrap();
    let outline = o.outline(1).unwrap();
    assert_eq!(outline.points, 1 + 4);
    let mut mem = OutlineMemory::new(&outline);
    let so = o.draw(&outline, &mut mem, &vec![], None).unwrap();
    assert_eq!(so.point_count, 1);
    assert_eq!(mem.scaled[0].x, (10 + 100) * 64);
    assert_eq!(mem.scaled[0].y, 10 * 64);
}

#[test]
fn composite_applies_transform_before_offset() {
    let half = Transform { xx: 0x2000, yx: 0, xy: 0, yy: 0x4000 };
    let mut comp = offset_component(0, 100, 0);
    comp.transform = Some(half);
    let glyphs = vec![
        Some(simple_with(vec![(10, 6)], (0, 0, 10, 10))),
        Some(composite_of(vec![comp])),
    ];
    let o = Outlines::new(font_with(glyphs, vec![(50, 0), (50, 0)], 1000)).unwrap();
    let outline = o.outline(1).unwrap();
    let mut mem = OutlineMemory::new(&outline);
    o.draw(&outline, &mut mem, &vec![], None).unwrap();
    // x halves (rounded), y keeps; then the offset lands on x.
    assert_eq!(mem.scaled[0].x, (10 * 64) / 2 + 100 * 64);
    assert_eq!(mem.scaled[0].y, 6 * 64);
}

#[test]
fn aligned_anchor_joins_named_points() {
    let glyphs = vec![
        Some(simple_with(vec![(10, 20)], (0, 0, 10, 10))),
        Some(composite_of(vec![
            offset_component(0, 0, 0),
            Component {
                glyph_id: 0,
                anchor: Anchor::Aligned { base: 0, component: 0 },
                transform: None,
                round_to_grid: false,
                use_my_metrics: false,
                overlap: false,
                scaled_offset: false,
            },
        ])),
    ];
    let o = Outlines::new(font_with(glyphs, vec![(50, 0), (50, 0)], 1000)).unwrap();
    let outline = o.outline(1).unwrap();
    let mut mem = OutlineMemory::new(&outline);
    let so = o.draw(&outline, &mut mem, &vec![], None).unwrap();
    assert_eq!(so.point_count, 2);
    assert_eq!(mem.scaled[0], mem.scaled[1]);
}

#[test]
fn invalid_anchor_point_is_fatal() {
    let glyphs = vec![
        Some(simple_with(vec![(10, 20)], (0, 0, 10, 10))),
        Some(composite_of(vec![
            offset_component(0, 0, 0),
            Component {
                glyph_id: 0,
                anchor: Anchor::Aligned { base: 5, component: 0 },
                transform: None,
                round_to_grid: false,
                use_my_metrics: false,
                overlap: false,
                scaled_offset: false,
            },
        ])),
    ];
    let o = Outlines::new(font_with(glyphs, vec![(50, 0), (50, 0)], 1000)).unwrap();
    let outline = o.outline(1).unwrap();
    let mut mem = OutlineMemory::new(&outline);
    assert_eq!(
        o.draw(&outline, &mut mem, &vec![], None),
        Err(DrawError::InvalidAnchorPoint(1, 5)),
    );
}

#[test]
fn undersized_arena_is_fatal() {
    let glyphs = vec![
        Some(simple_with(vec![(10, 20), (30, 40)], (0, 0, 10, 10))),
        None,
    ];
    let o = Outlines::new(font_with(glyphs, vec![(50, 0), (50, 0)], 1000)).unwrap();
    let big = o.outline(0).unwrap();
    let empty = o.outline(1).unwrap();
    let mut small = OutlineMemory::new(&empty);
    assert_eq!(
        o.draw(&big, &mut small, &vec![], None),
        Err(DrawError::InsufficientMemory),
    );
}

#[test]
fn use_my_metrics_overrides_phantoms() {
    let glyphs = vec![
        Some(simple_with(vec![(10, 0)], (0, 0, 10, 10))),
        Some(simple_with(vec![(5, 5)], (7, 0, 30, 30))),
        Some(composite_of(vec![
            offset_component(0, 0, 0),
            Component {
                glyph_id: 1,
                anchor: Anchor::Offset { x: 0, y: 0 },
                transform: None,
                round_to_grid: false,
                use_my_metrics: true,
                overlap: false,
                scaled_offset: false,
            },
        ])),
    ];
    let metrics = vec![(100, 0), (50, 3), (100, 0)];
    let o = Outlines::new(font_with(glyphs, metrics, 1000)).unwrap();
    let outline = o.outline(2).unwrap();
    let mut mem = OutlineMemory::new(&outline);
    let so = o.draw(&outline, &mut mem, &vec![], None).unwrap();
    // The marked component's own metrics win: glyph 1's x_min - lsb and
    // advance, not the composite's.
    assert_eq!(so.phantom.pp0.x, (7 - 3) * 64);
    assert_eq!(so.phantom.pp1.x, (7 - 3 + 50) * 64);
}

#[test]
fn without_use_my_metrics_composite_keeps_its_own() {
    let glyphs = vec![
        Some(simple_with(vec![(10, 0)], (0, 0, 10, 10))),
        Some(simple_with(vec![(5, 5)], (7, 0, 30, 30))),
        Some(composite_of(vec![
            offset_component(0, 0, 0),
            offset_component(1, 0, 0),
        ])),
    ];
    let metrics = vec![(100, 0), (50, 3), (90, 2)];
    let o = Outlines::new(font_with(glyphs, metrics, 1000)).unwrap();
    let outline = o.outline(2).unwrap();
    let mut mem = OutlineMemory::new(&outline);
    let so = o.draw(&outline, &mut mem, &vec![], None).unwrap();
    // The composite's bounds have x_min 0 and its own lsb is 2.
    assert_eq!(so.phantom.pp0.x, (0 - 2) * 64);
    assert_eq!(so.phantom.pp1.x, (0 - 2 + 90) * 64);
}

#[test]
fn scaled_offset_heuristic_shrinks_literal_offsets() {
    // A half-scale transform with the scaled-offset flag runs the offset
    // through the legacy magnitude heuristic: 100 becomes 50.
    let half = Transform { xx: 0x2000, yx: 0, xy: 0, yy: 0x4000 };
    let mut comp = offset_component(0, 100, 0);
    comp.transform = Some(half);
    comp.scaled_offset = true;
    let glyphs = vec![
        Some(simple_with(vec![(0, 0)], (0, 0, 10, 10))),
        Some(composite_of(vec![comp])),
    ];
    let o = Outlines::new(font_with(glyphs, vec![(50, 0), (50, 0)], 1000)).unwrap();
    let outline = o.outline(1).unwrap();
    let mut mem = OutlineMemory::new(&outline);
    o.draw(&outline, &mut mem, &vec![], None).unwrap();
    assert_eq!(mem.scaled[0].x, 50 * 64);
    assert_eq!(mem.scaled[0].y, 0);
}

#[test]
fn empty_glyph_draws_nothing() {
    let glyphs = vec![None];
    let o = Outlines::new(font_with(glyphs, vec![(50, 0)], 1000)).unwrap();
    let outline = o.outline(0).unwrap();
    let mut mem = OutlineMemory::new(&outline);
    let so = o.draw(&outline, &mut mem, &vec![], None).unwrap();
    assert_eq!(so.point_count, 0);
    assert_eq!(so.contour_count, 0);
}

#[test]
fn composite_lsb_delta_folds_into_phantom_origin() {
    // gvar present but no HVAR side-bearing mapping: the composite folds
    // the first phantom point's delta entry into phantom 0's x.
    let glyphs = vec![
        Some(simple_with(vec![(10, 0)], (0, 0, 10, 10))),
        Some(composite_of(vec![offset_component(0, 0, 0)])),
    ];
    let mut f = font_with(glyphs, vec![(50, 0), (50, 0)], 1000);
    // One component plus 4 phantom entries; phantom 0 sits at index 1.
    let deltas = vec![
        Point { x: 0, y: 0 },
        Point { x: 9, y: 0 },
        Point { x: 0, y: 0 },
        Point { x: 0, y: 0 },
        Point { x: 0, y: 0 },
    ];
    f.gvar = Some(GvarTable {
        glyph_deltas: vec![
            vec![],
            vec![GlyphDeltas { region: full_region(), deltas }],
        ],
    });
    let o = Outlines::new(f).unwrap();
    let outline = o.outline(1).unwrap();
    let mut mem = OutlineMemory::new(&outline);
    let so = o.draw(&outline, &mut mem, &vec![0x4000], None).unwrap();
    assert_eq!(so.phantom.pp0.x, 9 * 64);
    // Re-basing subtracts the shifted origin from the child's points.
    assert_eq!(mem.scaled[0].x, (10 - 9) * 64);
    assert_eq!(mem.scaled[0].y, 0);
}
