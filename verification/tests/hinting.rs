use glyf_scaler::error::DrawError;
use glyf_scaler::hint::{HintInterpreter, Phantoms};
use glyf_scaler::memory::OutlineMemory;
use glyf_scaler::model::{
    Anchor, Bounds, Component, CompositeGlyph, FontData, Glyph, LongMetric, MaxpLimits, Point,
    SimpleGlyph,
};
use glyf_scaler::outlines::Outlines;

fn instructed_glyph(points: Vec<(i32, i32)>, instructions: Vec<u8>) -> Glyph {
    let n = points.len();
    let ends = if n > 0 { vec![(n - 1) as u16] } else { vec![] };
    Glyph::Simple(SimpleGlyph {
        bounds: Bounds { x_min: 0, y_min: 0, x_max: 60, y_max: 70 },
        points: points.into_iter().map(|(x, y)| Point { x, y }).collect(),
        flags: vec![1u8; n],
        contour_ends: ends,
        instructions,
    })
}

fn font_of(glyphs: Vec<Option<Glyph>>, upem: u16) -> FontData {
    let n = glyphs.len();
    FontData {
        glyf: Some(glyphs),
        hmtx: Some(vec![LongMetric { advance: 100, lsb: 0 }; n]),
        head_units_per_em: Some(upem),
        ascender: 80,
        descender: -20,
        limits: MaxpLimits {
            max_function_defs: 0,
            max_instruction_defs: 0,
            max_twilight_points: 4,
            max_stack_elements: 16,
            max_storage: 4,
        },
        gvar: None,
        hvar: None,
        cvar: None,
        fpgm: vec![],
        prep: vec![],
        cvt: vec![],
    }
}

struct FailingInterpreter;

impl HintInterpreter for FailingInterpreter {
    fn backward_compatibility(&self) -> bool {
        false
    }

    fn run(
        &mut self,
        _glyph_id: u16,
        _is_composite: bool,
        _bytecode: &Vec<u8>,
        _mem: &mut OutlineMemory,
        _point_base: usize,
        _point_count: usize,
        _contour_base: usize,
        _contour_count: usize,
        _phantom: &mut Phantoms,
    ) -> bool {
        false
    }
}

struct PinningInterpreter;

impl HintInterpreter for PinningInterpreter {
    fn backward_compatibility(&self) -> bool {
        false
    }

    fn run(
        &mut self,
        _glyph_id: u16,
        _is_composite: bool,
        _bytecode: &Vec<u8>,
        mem: &mut OutlineMemory,
        point_base: usize,
        _point_count: usize,
        _contour_base: usize,
        _contour_count: usize,
        _phantom: &mut Phantoms,
    ) -> bool {
        mem.scaled[point_base] = Point { x: 999, y: -999 };
        true
    }
}

struct CompatInterpreter;

impl HintInterpreter for CompatInterpreter {
    fn backward_compatibility(&self) -> bool {
        true
    }

    fn run(
        &mut self,
        _glyph_id: u16,
        _is_composite: bool,
        _bytecode: &Vec<u8>,
        _mem: &mut OutlineMemory,
        _point_base: usize,
        _point_count: usize,
        _contour_base: usize,
        _contour_count: usize,
        _phantom: &mut Phantoms,
    ) -> bool {
        true
    }
}

#[test]
fn hint_failure_is_fatal_only_when_pedantic() {
    let glyphs = vec![Some(instructed_glyph(vec![(10, 20)], vec![0x01]))];
    let o = Outlines::new(font_of(glyphs, 1000)).unwrap();
    let outline = o.outline(0).unwrap();

    let mut mem = OutlineMemory::new(&outline);
    let mut failing = FailingInterpreter;
    let r = o.draw_hinted(&outline, &mut mem, &vec![], Some(1000), &mut failing, true);
    assert_eq!(r, Err(DrawError::HintingFailed(0)));

    let mut mem = OutlineMemory::new(&outline);
    let mut failing = FailingInterpreter;
    let so = o
        .draw_hinted(&outline, &mut mem, &vec![], Some(1000), &mut failing, false)
        .unwrap();
    // The pre-failure scaled state stands.
    assert_eq!(so.point_count, 1);
    assert_eq!(mem.scaled[0].x, 10 * 64);
    assert_eq!(mem.scaled[0].y, 20 * 64);
}

#[test]
fn interpreter_mutations_reach_the_output() {
    let glyphs = vec![Some(instructed_glyph(vec![(10, 20)], vec![0x01]))];
    let o = Outlines::new(font_of(glyphs, 1000)).unwrap();
    let outline = o.outline(0).unwrap();
    let mut mem = OutlineMemory::new(&outline);
    let mut pinning = PinningInterpreter;
    let so = o
        .draw_hinted(&outline, &mut mem, &vec![], Some(1000), &mut pinning, true)
        .unwrap();
    assert_eq!(so.point_count, 1);
    assert_eq!(mem.scaled[0], Point { x: 999, y: -999 });
}

#[test]
fn unscaled_outlines_are_never_hinted() {
    // Without a size there is no hinting: the interpreter is not asked,
    // its failures cannot surface even pedantically, and no point moves.
    let glyphs = vec![Some(instructed_glyph(vec![(10, 20)], vec![0x01]))];
    let o = Outlines::new(font_of(glyphs, 1000)).unwrap();
    let outline = o.outline(0).unwrap();

    let mut mem = OutlineMemory::new(&outline);
    let mut failing = FailingInterpreter;
    let so = o
        .draw_hinted(&outline, &mut mem, &vec![], None, &mut failing, true)
        .unwrap();
    assert_eq!(so.point_count, 1);

    let mut mem = OutlineMemory::new(&outline);
    let mut pinning = PinningInterpreter;
    o.draw_hinted(&outline, &mut mem, &vec![], None, &mut pinning, true)
        .unwrap();
    assert_eq!(mem.scaled[0].x, 10 * 64);
    assert_eq!(mem.scaled[0].y, 20 * 64);
}

#[test]
fn uninstructed_glyph_rounds_phantoms_unless_compatible() {
    // lsb 0 against x_min 0 leaves phantom 0 at zero; the advance-side
    // phantom picks up the rounding. At 33 ppem over 64 units per em the
    // factor is 2112; advance 100 scales to 3300, which rounds to 3328.
    let glyphs = vec![Some(instructed_glyph(vec![(10, 20)], vec![]))];
    let o = Outlines::new(font_of(glyphs, 64)).unwrap();
    let outline = o.outline(0).unwrap();

    let mut mem = OutlineMemory::new(&outline);
    let mut failing = FailingInterpreter;
    let so = o
        .draw_hinted(&outline, &mut mem, &vec![], Some(33), &mut failing, true)
        .unwrap();
    assert_eq!(so.phantom.pp1.x, 3328);

    let mut mem = OutlineMemory::new(&outline);
    let mut compat = CompatInterpreter;
    let so = o
        .draw_hinted(&outline, &mut mem, &vec![], Some(33), &mut compat, true)
        .unwrap();
    assert_eq!(so.phantom.pp1.x, 3300);
}

#[test]
fn unhinted_draw_never_reports_hinting_failure() {
    let glyphs = vec![Some(instructed_glyph(vec![(10, 20)], vec![0x01]))];
    let o = Outlines::new(font_of(glyphs, 1000)).unwrap();
    let outline = o.outline(0).unwrap();
    let mut mem = OutlineMemory::new(&outline);
    assert!(o.draw(&outline, &mut mem, &vec![], None).is_ok());
}

#[test]
fn composite_bytecode_reaches_the_interpreter() {
    let child = instructed_glyph(vec![(10, 20)], vec![]);
    let composite = Glyph::Composite(CompositeGlyph {
        bounds: Bounds { x_min: 0, y_min: 0, x_max: 60, y_max: 70 },
        components: vec![Component {
            glyph_id: 0,
            anchor: Anchor::Offset { x: 0, y: 0 },
            transform: None,
            round_to_grid: false,
            use_my_metrics: false,
            overlap: false,
            scaled_offset: false,
        }],
        instructions: vec![0x01],
    });
    let o = Outlines::new(font_of(vec![Some(child), Some(composite)], 1000)).unwrap();
    let outline = o.outline(1).unwrap();
    assert!(outline.has_hinting);
    let mut mem = OutlineMemory::new(&outline);
    let mut pinning = PinningInterpreter;
    let so = o
        .draw_hinted(&outline, &mut mem, &vec![], Some(1000), &mut pinning, true)
        .unwrap();
    assert_eq!(so.point_count, 1);
    assert_eq!(mem.scaled[0], Point { x: 999, y: -999 });

    let mut mem = OutlineMemory::new(&outline);
    let mut failing = FailingInterpreter;
    assert_eq!(
        o.draw_hinted(&outline, &mut mem, &vec![], Some(1000), &mut failing, true),
        Err(DrawError::HintingFailed(1)),
    );
}

#[test]
fn round_to_grid_rounds_offset_vertically() {
    // At 33 ppem over 64 upem a y offset of 10 scales to 330, which
    // grid-rounds to 320; x keeps its unrounded 330.
    let child = instructed_glyph(vec![(0, 0)], vec![]);
    let composite = Glyph::Composite(CompositeGlyph {
        bounds: Bounds { x_min: 0, y_min: 0, x_max: 60, y_max: 70 },
        components: vec![Component {
            glyph_id: 0,
            anchor: Anchor::Offset { x: 10, y: 10 },
            transform: None,
            round_to_grid: true,
            use_my_metrics: false,
            overlap: false,
            scaled_offset: false,
        }],
        instructions: vec![],
    });
    let o = Outlines::new(font_of(vec![Some(child), Some(composite)], 64)).unwrap();
    let outline = o.outline(1).unwrap();
    let mut mem = OutlineMemory::new(&outline);
    let mut compat = CompatInterpreter;
    o.draw_hinted(&outline, &mut mem, &vec![], Some(33), &mut compat, true)
        .unwrap();
    assert_eq!(mem.scaled[0].x, 330);
    assert_eq!(mem.scaled[0].y, 320);
}
