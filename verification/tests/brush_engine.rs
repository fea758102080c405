use terrain_editor_tools::fixed::MICRO;
use terrain_editor_tools::terrain_brushes::{
    ColorBrushType, HeightBrushType, Terrace, TerrainColorBrush, TerrainHeightBrush,
};
use terrain_editor_tools::vertex::PlaneVertex;
use terrain_editor_tools::noises::Noise;
use terrain_editor_tools::editor::terrain_brushes::TerrainHeightBrush as EditorBrush;

fn vertex_at(x: i64, z: i64, height: i64, radius: i64) -> PlaneVertex {
    PlaneVertex { x, z, height, radius, clr: [0, 0, 0, MICRO], selected: false }
}

fn no_samples() -> Vec<Vec<i64>> {
    Vec::new()
}

fn value_brush(delta: i64, reselection: bool) -> TerrainHeightBrush {
    TerrainHeightBrush { typ: HeightBrushType::Value(delta), reselection, active: false }
}

#[test]
fn value_height_accumulates_across_strokes() {
    let mut vs = vec![vertex_at(0, 0, 2 * MICRO, 0)];
    let mut b = value_brush(MICRO, false);
    b.started();
    b.apply(&mut vs, &no_samples(), 0, 0, MICRO);
    assert_eq!(vs[0].height, 3 * MICRO);
    assert!(vs[0].selected);
    // Second pass of the same stroke: the vertex stays marked and unchanged.
    b.apply(&mut vs, &no_samples(), 0, 0, MICRO);
    assert_eq!(vs[0].height, 3 * MICRO);
    // A fresh stroke mutates it again.
    b.done(&mut vs);
    assert!(!vs[0].selected);
    b.started();
    b.apply(&mut vs, &no_samples(), 0, 0, MICRO);
    assert_eq!(vs[0].height, 4 * MICRO);
}

#[test]
fn outside_reach_left_unchanged() {
    let mut vs = vec![vertex_at(10 * MICRO, 0, 2 * MICRO, 0)];
    let mut b = value_brush(MICRO, true);
    b.started();
    b.apply(&mut vs, &no_samples(), 0, 0, MICRO);
    assert_eq!(vs[0].height, 2 * MICRO);
    assert!(!vs[0].selected);
}

#[test]
fn boundary_touch_is_eligible() {
    // Distance 1.5 equals brush radius 1.0 plus footprint 0.5 exactly.
    let mut vs = vec![vertex_at(MICRO + MICRO / 2, 0, 0, MICRO / 2)];
    let mut b = value_brush(MICRO, false);
    b.started();
    b.apply(&mut vs, &no_samples(), 0, 0, MICRO);
    assert_eq!(vs[0].height, MICRO);
    assert!(vs[0].selected);
}

#[test]
fn negative_reach_never_matches() {
    let mut vs = vec![vertex_at(0, 0, 0, MICRO)];
    let mut b = value_brush(MICRO, false);
    b.started();
    b.apply(&mut vs, &no_samples(), 0, 0, -2 * MICRO);
    assert_eq!(vs[0].height, 0);
    assert!(!vs[0].selected);
}

#[test]
fn terrace_band_flattens() {
    // Band [0, 1] with value 0.5; height 0.3 becomes exactly 0.5.
    let mut vs = vec![vertex_at(0, 0, 300_000, 0)];
    let mut b = TerrainHeightBrush {
        typ: HeightBrushType::Terraces(vec![Terrace::new()]),
        reselection: false,
        active: false,
    };
    b.started();
    b.apply(&mut vs, &no_samples(), 0, 0, MICRO);
    assert_eq!(vs[0].height, 500_000);
}

#[test]
fn terrace_first_match_wins() {
    let bands = vec![
        Terrace { min: 0, max: MICRO, value: 250_000 },
        Terrace { min: 0, max: MICRO, value: 750_000 },
    ];
    let mut vs = vec![vertex_at(0, 0, 500_000, 0)];
    let mut b = TerrainHeightBrush {
        typ: HeightBrushType::Terraces(bands),
        reselection: false,
        active: false,
    };
    b.started();
    b.apply(&mut vs, &no_samples(), 0, 0, MICRO);
    assert_eq!(vs[0].height, 250_000);
}

#[test]
fn terrace_without_match_leaves_height() {
    let mut vs = vec![vertex_at(0, 0, 5 * MICRO, 0)];
    let mut b = TerrainHeightBrush {
        typ: HeightBrushType::Terraces(vec![Terrace::new()]),
        reselection: false,
        active: false,
    };
    b.started();
    b.apply(&mut vs, &no_samples(), 0, 0, MICRO);
    assert_eq!(vs[0].height, 5 * MICRO);
    assert!(vs[0].selected);
}

#[test]
fn height_noise_replaces_height() {
    // One pass sums the per-layer samples and scales them; the height is
    // replaced, not shifted.
    let layers = vec![Noise::new(), Noise::new()];
    let mut vs = vec![vertex_at(0, 0, 42 * MICRO, 0)];
    let mut b = TerrainHeightBrush {
        typ: HeightBrushType::Noise(layers, MICRO / 2),
        reselection: false,
        active: false,
    };
    let samples = vec![vec![MICRO, MICRO / 2]];
    b.started();
    b.apply(&mut vs, &samples, 0, 0, MICRO);
    // (1.0 + 0.5) * 0.5 == 0.75
    assert_eq!(vs[0].height, 750_000);
}

#[test]
fn range_color_midpoint() {
    let mut vs = vec![vertex_at(0, 0, 5 * MICRO, 0)];
    let mut b = TerrainColorBrush {
        typ: ColorBrushType::Range {
            min: 0,
            max: 10 * MICRO,
            min_clr: [0, 0, 0, MICRO],
            max_clr: [MICRO, MICRO, MICRO, MICRO],
        },
        active: false,
    };
    b.started();
    b.apply(&mut vs, &no_samples(), 0, 0, MICRO);
    assert_eq!(vs[0].clr, [500_000, 500_000, 500_000, MICRO]);
}

#[test]
fn range_color_at_band_floor() {
    let mut vs = vec![vertex_at(0, 0, 0, 0)];
    let mut b = TerrainColorBrush {
        typ: ColorBrushType::Range {
            min: 0,
            max: 10 * MICRO,
            min_clr: [0, 0, 0, MICRO],
            max_clr: [MICRO, MICRO, MICRO, MICRO],
        },
        active: false,
    };
    b.started();
    b.apply(&mut vs, &no_samples(), 0, 0, MICRO);
    assert_eq!(vs[0].clr, [0, 0, 0, MICRO]);
}

#[test]
fn range_color_outside_band_unchanged() {
    let mut vs = vec![vertex_at(0, 0, 20 * MICRO, 0)];
    vs[0].clr = [7, 7, 7, 7];
    let mut b = TerrainColorBrush {
        typ: ColorBrushType::Range {
            min: 0,
            max: 10 * MICRO,
            min_clr: [0, 0, 0, MICRO],
            max_clr: [MICRO, MICRO, MICRO, MICRO],
        },
        active: false,
    };
    b.started();
    b.apply(&mut vs, &no_samples(), 0, 0, MICRO);
    // The color stays, but the vertex still counts as touched.
    assert_eq!(vs[0].clr, [7, 7, 7, 7]);
    assert!(vs[0].selected);
}

#[test]
fn color_value_replaces() {
    let mut vs = vec![vertex_at(0, 0, 0, 0)];
    let mut b = TerrainColorBrush {
        typ: ColorBrushType::Value { clr: [MICRO, 0, MICRO / 4, MICRO] },
        active: false,
    };
    b.started();
    b.apply(&mut vs, &no_samples(), 0, 0, MICRO);
    assert_eq!(vs[0].clr, [MICRO, 0, MICRO / 4, MICRO]);
}

#[test]
fn color_noise_alpha_clamped() {
    let mut vs = vec![vertex_at(0, 0, 0, 0)];
    let mut b = TerrainColorBrush {
        typ: ColorBrushType::Noise {
            data: vec![Noise::new()],
            value: MICRO,
            clr: [MICRO / 2, MICRO / 4, MICRO / 8, 0],
        },
        active: false,
    };
    // A single sample of 2.0 scales to alpha 2.0, which clamps to 1.0.
    let samples = vec![vec![2 * MICRO]];
    b.started();
    b.apply(&mut vs, &samples, 0, 0, MICRO);
    assert_eq!(vs[0].clr, [MICRO / 2, MICRO / 4, MICRO / 8, MICRO]);
}

#[test]
fn immediate_release_remutates() {
    let mut vs = vec![vertex_at(0, 0, 0, 0)];
    let mut b = value_brush(MICRO, true);
    b.started();
    b.apply(&mut vs, &no_samples(), 0, 0, MICRO);
    assert_eq!(vs[0].height, MICRO);
    assert!(vs[0].selected);
    // The pointer moves away: the vertex leaves the reach and is released.
    b.apply(&mut vs, &no_samples(), 100 * MICRO, 0, MICRO);
    assert!(!vs[0].selected);
    assert_eq!(vs[0].height, MICRO);
    // The pointer comes back: the same stroke mutates the vertex again.
    b.apply(&mut vs, &no_samples(), 0, 0, MICRO);
    assert_eq!(vs[0].height, 2 * MICRO);
    assert!(vs[0].selected);
}

#[test]
fn stroke_scoped_mark_blocks_remutation() {
    let mut vs = vec![vertex_at(0, 0, 0, 0)];
    let mut b = value_brush(MICRO, false);
    b.started();
    b.apply(&mut vs, &no_samples(), 0, 0, MICRO);
    assert_eq!(vs[0].height, MICRO);
    // Away and back again: the mark holds, so nothing changes.
    b.apply(&mut vs, &no_samples(), 100 * MICRO, 0, MICRO);
    assert!(vs[0].selected);
    b.apply(&mut vs, &no_samples(), 0, 0, MICRO);
    assert_eq!(vs[0].height, MICRO);
    // Only `done` releases it.
    b.done(&mut vs);
    b.started();
    b.apply(&mut vs, &no_samples(), 0, 0, MICRO);
    assert_eq!(vs[0].height, 2 * MICRO);
}

#[test]
fn color_brush_releases_out_of_reach() {
    let mut vs = vec![vertex_at(0, 0, 0, 0)];
    let mut b = TerrainColorBrush {
        typ: ColorBrushType::Value { clr: [1, 2, 3, 4] },
        active: false,
    };
    b.started();
    b.apply(&mut vs, &no_samples(), 0, 0, MICRO);
    assert!(vs[0].selected);
    // The color brush has no stroke-scoped policy: leaving the reach
    // always releases.
    b.apply(&mut vs, &no_samples(), 100 * MICRO, 0, MICRO);
    assert!(!vs[0].selected);
}

#[test]
fn inactive_brush_is_a_no_op() {
    let mut vs = vec![vertex_at(0, 0, 2 * MICRO, 0)];
    let mut hb = value_brush(MICRO, false);
    hb.apply(&mut vs, &no_samples(), 0, 0, MICRO);
    assert_eq!(vs[0].height, 2 * MICRO);
    assert!(!vs[0].selected);
    let mut cb = TerrainColorBrush {
        typ: ColorBrushType::Value { clr: [1, 1, 1, 1] },
        active: false,
    };
    cb.apply(&mut vs, &no_samples(), 0, 0, MICRO);
    assert_eq!(vs[0].clr, [0, 0, 0, MICRO]);
}

#[test]
fn done_clears_every_marker() {
    let mut vs = vec![
        vertex_at(0, 0, 0, 0),
        vertex_at(MICRO / 2, 0, 0, 0),
        vertex_at(50 * MICRO, 0, 0, 0),
    ];
    let mut b = value_brush(MICRO, false);
    b.started();
    b.apply(&mut vs, &no_samples(), 0, 0, MICRO);
    assert!(vs[0].selected && vs[1].selected && !vs[2].selected);
    b.done(&mut vs);
    assert!(!vs[0].selected && !vs[1].selected && !vs[2].selected);
    assert!(!b.active);
    // The heights written during the stroke stay.
    assert_eq!(vs[0].height, MICRO);
    assert_eq!(vs[2].height, 0);
}

#[test]
fn editor_brush_shifts_only_unmarked() {
    let mut vs = vec![vertex_at(0, 0, 0, 0), vertex_at(MICRO / 4, 0, 0, 0)];
    vs[1].selected = true;
    let mut b = EditorBrush { y_change: MICRO };
    b.apply(&mut vs, 0, 0, MICRO);
    assert_eq!(vs[0].height, MICRO);
    assert!(vs[0].selected);
    // A marked vertex is skipped, and this brush's `done` releases nothing.
    assert_eq!(vs[1].height, 0);
    b.done();
    assert!(vs[0].selected);
    b.apply(&mut vs, 0, 0, MICRO);
    assert_eq!(vs[0].height, MICRO);
}

#[test]
fn selection_marker_operations() {
    let mut v = vertex_at(0, 0, 0, 0);
    assert!(!v.is_marked());
    v.mark();
    assert!(v.is_marked());
    assert_eq!(v.height, 0);
    v.unmark();
    assert!(!v.is_marked());
}

#[test]
fn terrace_default_band() {
    let t = Terrace::new();
    assert_eq!((t.min, t.max, t.value), (0, MICRO, MICRO / 2));
}
