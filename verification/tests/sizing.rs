use glyf_scaler::error::DrawError;
use glyf_scaler::model::{
    Anchor, Bounds, Component, CompositeGlyph, FontData, Glyph, LongMetric, MaxpLimits,
    SimpleGlyph, OVERLAP_SIMPLE,
};
use glyf_scaler::outlines::Outlines;

fn bounds(x_min: i32, y_min: i32, x_max: i32, y_max: i32) -> Bounds {
    Bounds { x_min, y_min, x_max, y_max }
}

fn simple(points: Vec<(i32, i32)>, first_flag: u8, instructions: Vec<u8>) -> Glyph {
    let n = points.len();
    let mut flags = vec![1u8; n];
    if n > 0 {
        flags[0] = first_flag | 1;
    }
    let ends = if n > 0 { vec![(n - 1) as u16] } else { vec![] };
    Glyph::Simple(SimpleGlyph {
        bounds: bounds(0, 0, 100, 100),
        points: points
            .into_iter()
            .map(|(x, y)| glyf_scaler::model::Point { x, y })
            .collect(),
        flags,
        contour_ends: ends,
        instructions,
    })
}

fn component(glyph_id: u16, overlap: bool) -> Component {
    Component {
        glyph_id,
        anchor: Anchor::Offset { x: 0, y: 0 },
        transform: None,
        round_to_grid: false,
        use_my_metrics: false,
        overlap,
        scaled_offset: false,
    }
}

fn composite(components: Vec<Component>, instructions: Vec<u8>) -> Glyph {
    Glyph::Composite(CompositeGlyph {
        bounds: bounds(0, 0, 100, 100),
        components,
        instructions,
    })
}

fn font(glyphs: Vec<Option<Glyph>>) -> FontData {
    let n = glyphs.len();
    FontData {
        glyf: Some(glyphs),
        hmtx: Some(vec![LongMetric { advance: 100, lsb: 0 }; n]),
        head_units_per_em: Some(1000),
        ascender: 80,
        descender: -20,
        limits: MaxpLimits {
            max_function_defs: 1,
            max_instruction_defs: 2,
            max_twilight_points: 10,
            max_stack_elements: 100,
            max_storage: 7,
        },
        gvar: None,
        hvar: None,
        cvar: None,
        fpgm: vec![],
        prep: vec![],
        cvt: vec![0, 1, 2, 3, 4],
    }
}

fn five_glyph_font() -> Outlines {
    let glyphs = vec![
        Some(simple(vec![(10, 20), (30, 40), (50, 60)], 0, vec![])),
        None,
        Some(composite(
            vec![component(0, true), component(3, false)],
            vec![],
        )),
        Some(simple(vec![(1, 2), (3, 4)], OVERLAP_SIMPLE, vec![])),
        Some(composite(vec![component(0, false), component(0, false)], vec![])),
    ];
    Outlines::new(font(glyphs)).unwrap()
}

#[test]
fn outline_succeeds_for_every_glyph() {
    let o = five_glyph_font();
    assert_eq!(o.glyph_count(), 5);
    let expected_points = [7usize, 0, 9, 6, 10];
    let expected_contours = [1usize, 0, 2, 1, 2];
    for id in 0..5u16 {
        let outline = o.outline(id).unwrap();
        assert_eq!(outline.glyph_id, id);
        assert_eq!(outline.points, expected_points[id as usize]);
        assert_eq!(outline.contours, expected_contours[id as usize]);
    }
}

#[test]
fn outline_out_of_range_is_empty() {
    let o = five_glyph_font();
    let outline = o.outline(99).unwrap();
    assert_eq!(outline.points, 0);
    assert_eq!(outline.contours, 0);
}

#[test]
fn overlap_flags_are_exactly_marked_glyphs() {
    let o = five_glyph_font();
    let mut with_overlap = vec![];
    for id in 0..5u16 {
        if o.outline(id).unwrap().has_overlaps {
            with_overlap.push(id);
        }
    }
    assert_eq!(with_overlap, vec![2, 3]);
}

#[test]
fn direct_cycle_fails_with_recursion_limit() {
    let glyphs = vec![Some(composite(vec![component(0, false)], vec![]))];
    let o = Outlines::new(font(glyphs)).unwrap();
    assert_eq!(
        o.outline(0),
        Err(DrawError::RecursionLimitExceeded(0)),
    );
}

#[test]
fn indirect_cycle_fails_with_recursion_limit() {
    let glyphs = vec![
        Some(composite(vec![component(1, false)], vec![])),
        Some(composite(vec![component(0, false)], vec![])),
    ];
    let o = Outlines::new(font(glyphs)).unwrap();
    let r = o.outline(0);
    assert!(matches!(r, Err(DrawError::RecursionLimitExceeded(_))));
}

#[test]
fn missing_required_table_refuses_construction() {
    let mut f = font(vec![None]);
    f.hmtx = None;
    assert!(Outlines::new(f).is_none());
    let mut f = font(vec![None]);
    f.glyf = None;
    assert!(Outlines::new(f).is_none());
    let mut f = font(vec![None]);
    f.head_units_per_em = None;
    assert!(Outlines::new(f).is_none());
    assert!(Outlines::new(font(vec![None])).is_some());
}

#[test]
fn derived_limits_carry_defensive_margins() {
    let o = five_glyph_font();
    let outline = o.outline(0).unwrap();
    assert_eq!(outline.twilight_count, 10 + 4);
    assert_eq!(outline.stack_count, 100 + 32);
    assert_eq!(outline.cvt_count, 5);
    assert_eq!(outline.storage_count, 7);
    assert_eq!(o.max_twilight_points, 14);
    assert_eq!(o.max_stack_elements, 132);
}

#[test]
fn hinting_flag_and_widened_scratch() {
    let glyphs = vec![
        Some(simple(vec![(0, 0), (1, 1), (2, 2)], 0, vec![])),
        Some(simple(vec![(5, 5), (6, 6)], 0, vec![])),
        Some(composite(
            vec![component(0, false), component(1, false)],
            vec![0xAB],
        )),
        Some(composite(
            vec![component(0, false), component(1, false)],
            vec![],
        )),
    ];
    let o = Outlines::new(font(glyphs)).unwrap();
    let hinted = o.outline(2).unwrap();
    assert!(hinted.has_hinting);
    // 5 gathered points + 4 phantoms beats the largest child budget of 7.
    assert_eq!(hinted.max_other_points, 9);
    let unhinted = o.outline(3).unwrap();
    assert!(!unhinted.has_hinting);
    assert_eq!(unhinted.max_other_points, 7);
    // A simple glyph with bytecode is hinted as well.
    let glyphs2 = vec![Some(simple(vec![(0, 0)], 0, vec![1, 2, 3]))];
    let o2 = Outlines::new(font(glyphs2)).unwrap();
    assert!(o2.outline(0).unwrap().has_hinting);
}

#[test]
fn component_delta_stack_accumulates_by_nesting() {
    let glyphs = vec![
        Some(simple(vec![(0, 0)], 0, vec![])),
        Some(composite(
            vec![component(0, false), component(0, false)],
            vec![],
        )),
        Some(composite(vec![component(1, false)], vec![])),
    ];
    let o = Outlines::new(font(glyphs)).unwrap();
    assert_eq!(o.outline(0).unwrap().max_component_delta_stack, 0);
    assert_eq!(o.outline(1).unwrap().max_component_delta_stack, 2 + 4);
    assert_eq!(o.outline(2).unwrap().max_component_delta_stack, 1 + 4 + 6);
}

#[test]
fn empty_glyph_has_no_phantom_budget() {
    let o = five_glyph_font();
    let outline = o.outline(1).unwrap();
    assert_eq!(outline.points, 0);
    assert!(!outline.has_hinting);
    assert!(!outline.has_overlaps);
}
