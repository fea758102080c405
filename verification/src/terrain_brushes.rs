//! The terrain brushes: the stateful dispatchers that mutate vertices.
//!
//! A brush lives through the stroke life cycle Idle -> `started` -> Active
//! -> `apply`* -> `done` -> Idle. Each `apply` pass scans every vertex once:
//! a vertex within reach and not yet marked is marked and transformed
//! exactly once; a vertex within reach that is already marked is left
//! alone; a vertex out of reach is handled by the reselection policy.
//! `done` clears every marker and returns the brush to Idle. `apply` or
//! `done` without a preceding `started` is a no-op on the terrain.
//!
//! The noise brushes consume per-vertex, per-layer samples of the layers'
//! scalar fields, which the host computes at the vertices' planar
//! positions and passes alongside the vertex list.

use crate::fixed::{
    add_fixed, clamp_to_unit, clamp_unit, fixed_scale, lerp, lerp_fixed, sat_add, scale_fixed,
    MICRO,
};
use crate::noises::Noise;
use crate::vertex::{clear_all, near_spec, PlaneVertex};
use vstd::prelude::*;

verus! {

/// One terrace band: heights within [min, max] are flattened to `value`.
#[derive(Clone, Copy)]
pub struct Terrace {
    pub min: i64,
    pub max: i64,
    pub value: i64,
}

impl Terrace {
    /// The default band: heights within [0, 1] flatten to one half.
    pub fn new() -> (r: Terrace)
        ensures
            r.min == 0,
            r.max == MICRO,
            r.value == 500_000i64,
    {
        Terrace { min: 0, max: MICRO, value: 500_000 }
    }
}

/// What a height brush does to an eligible vertex.
#[derive(Clone)]
pub enum HeightBrushType {
    /// Add a fixed delta to the height.
    Value(i64),
    /// Flatten the height to the value of the first band that contains it.
    Terraces(Vec<Terrace>),
    /// Replace the height by the summed noise samples times a global scale.
    Noise(Vec<Noise>, i64),
}

/// The height brush: a transform plus the reselection policy. `reselection`
/// true is the immediate-release policy: a marked vertex that leaves the
/// brush's reach is unmarked mid-stroke and may be mutated again later in
/// the same stroke. With `reselection` false a marker holds until `done`.
#[derive(Clone)]
pub struct TerrainHeightBrush {
    pub typ: HeightBrushType,
    pub reselection: bool,
    /// Whether a stroke is running: set by `started`, cleared by `done`.
    pub active: bool,
}

/// What a color brush does to an eligible vertex.
#[derive(Clone)]
pub enum ColorBrushType {
    /// Replace the color outright.
    Value { clr: [i64; 4] },
    /// For vertices whose height lies within [min, max], interpolate each
    /// channel from `min_clr` to `max_clr` by the normalized height.
    Range { min: i64, max: i64, min_clr: [i64; 4], max_clr: [i64; 4] },
    /// Keep the given red, green and blue; the alpha is the summed noise
    /// samples times `value`, clamped into the unit interval.
    Noise { data: Vec<Noise>, value: i64, clr: [i64; 4] },
}

/// The color brush. Its reselection policy is fixed to immediate release.
#[derive(Clone)]
pub struct TerrainColorBrush {
    pub typ: ColorBrushType,
    /// Whether a stroke is running: set by `started`, cleared by `done`.
    pub active: bool,
}

/// The noise samples that belong to the vertex at index `i`: one value per
/// layer, or no values where the host supplied none.
pub open spec fn sample_row(samples: Seq<Vec<i64>>, i: int) -> Seq<i64> {
    if 0 <= i < samples.len() {
        samples[i]@
    } else {
        Seq::empty()
    }
}

/// The samples of one row summed left to right, saturating.
pub open spec fn combined_sample(samples: Seq<i64>) -> int
    decreases samples.len(),
{
    if samples.len() == 0 {
        0
    } else {
        add_fixed(combined_sample(samples.drop_last()), samples.last() as int)
    }
}

/// First-match terracing: the height becomes the value of the first band
/// that contains it; with no matching band it is unchanged.
pub open spec fn terrace_result(bands: Seq<Terrace>, h: int) -> int
    decreases bands.len(),
{
    if bands.len() == 0 {
        h
    } else if bands[0].min as int <= h && h <= bands[0].max as int {
        bands[0].value as int
    } else {
        terrace_result(bands.drop_first(), h)
    }
}

/// The height an eligible vertex receives.
pub open spec fn height_result(typ: HeightBrushType, v: PlaneVertex, samples: Seq<i64>) -> int {
    match typ {
        HeightBrushType::Value(delta) => add_fixed(v.height as int, delta as int),
        HeightBrushType::Terraces(bands) => terrace_result(bands@, v.height as int),
        HeightBrushType::Noise(layers, scale) => scale_fixed(combined_sample(samples), scale as int),
    }
}

/// The color an eligible vertex receives.
pub open spec fn color_result(typ: ColorBrushType, v: PlaneVertex, samples: Seq<i64>) -> [i64; 4] {
    match typ {
        ColorBrushType::Value { clr } => clr,
        ColorBrushType::Range { min, max, min_clr, max_clr } => {
            if min as int <= v.height as int && v.height as int <= max as int {
                [
                    lerp_fixed(
                        min_clr[0] as int,
                        max_clr[0] as int,
                        v.height as int,
                        min as int,
                        max as int,
                    ) as i64,
                    lerp_fixed(
                        min_clr[1] as int,
                        max_clr[1] as int,
                        v.height as int,
                        min as int,
                        max as int,
                    ) as i64,
                    lerp_fixed(
                        min_clr[2] as int,
                        max_clr[2] as int,
                        v.height as int,
                        min as int,
                        max as int,
                    ) as i64,
                    lerp_fixed(
                        min_clr[3] as int,
                        max_clr[3] as int,
                        v.height as int,
                        min as int,
                        max as int,
                    ) as i64,
                ]
            } else {
                v.clr
            }
        },
        ColorBrushType::Noise { data, value, clr } => {
            [
                clr[0],
                clr[1],
                clr[2],
                clamp_unit(scale_fixed(combined_sample(samples), value as int)) as i64,
            ]
        },
    }
}

/// One height-brush pass, seen from a single vertex: mark and transform an
/// unmarked vertex within reach, leave a marked one alone, and apply the
/// reselection policy out of reach.
pub open spec fn height_step(
    b: TerrainHeightBrush,
    v: PlaneVertex,
    samples: Seq<i64>,
    cx: int,
    cz: int,
    radius: int,
) -> PlaneVertex {
    if near_spec(v, cx, cz, radius) {
        if !v.selected {
            PlaneVertex {
                selected: true,
                height: height_result(b.typ, v, samples) as i64,
                ..v
            }
        } else {
            v
        }
    } else {
        if b.reselection {
            PlaneVertex { selected: false, ..v }
        } else {
            v
        }
    }
}

/// One color-brush pass, seen from a single vertex. Out of reach the color
/// brush always releases the marker.
pub open spec fn color_step(
    b: TerrainColorBrush,
    v: PlaneVertex,
    samples: Seq<i64>,
    cx: int,
    cz: int,
    radius: int,
) -> PlaneVertex {
    if near_spec(v, cx, cz, radius) {
        if !v.selected {
            PlaneVertex { selected: true, clr: color_result(b.typ, v, samples), ..v }
        } else {
            v
        }
    } else {
        PlaneVertex { selected: false, ..v }
    }
}

/// Sum one row of noise samples, saturating, in row order.
pub fn combine_samples(row: &Vec<i64>) -> (r: i64)
    ensures
        r as int == combined_sample(row@),
{
    let mut acc: i64 = 0;
    let n: usize = row.len();
    for j in 0..n
        invariant
            n == row@.len(),
            acc as int == combined_sample(row@.take(j as int)),
    {
        acc = sat_add(acc, row[j]);
        proof {
            assert(row@.take(j as int + 1).drop_last() =~= row@.take(j as int));
            assert(row@.take(j as int + 1).last() == row@[j as int]);
        }
    }
    proof {
        assert(row@.take(n as int) =~= row@);
    }
    acc
}

/// Scan the bands in listed order and return the value of the first band
/// that contains `h`, or `h` itself if none does.
pub fn terrace_height(bands: &Vec<Terrace>, h: i64) -> (r: i64)
    ensures
        r as int == terrace_result(bands@, h as int),
{
    let n: usize = bands.len();
    proof {
        assert(bands@.skip(0) =~= bands@);
    }
    for j in 0..n
        invariant
            n == bands@.len(),
            terrace_result(bands@, h as int) == terrace_result(bands@.skip(j as int), h as int),
    {
        let band: Terrace = bands[j];
        proof {
            assert(bands@.skip(j as int)[0] == bands@[j as int]);
        }
        if band.min <= h && h <= band.max {
            return band.value;
        }
        proof {
            assert(bands@.skip(j as int).drop_first() =~= bands@.skip(j as int + 1));
        }
    }
    proof {
        assert(bands@.skip(n as int) =~= Seq::<Terrace>::empty());
    }
    h
}

impl TerrainHeightBrush {
    /// Begin a stroke. A hook reserved for per-stroke setup; today it only
    /// arms the brush.
    pub fn started(&mut self)
        ensures
            *final(self) == (TerrainHeightBrush { active: true, ..*old(self) }),
    {
        self.active = true;
    }

    /// One brush pass over the vertices at contact point `(cx, cz)` with
    /// brush radius `radius`. `samples` holds, per vertex, one noise sample
    /// per layer; only the Noise transform reads it. Inactive brushes (no
    /// stroke was started) leave the terrain untouched.
    ///
    /// Each vertex's outcome is a function of that vertex's state before
    /// the pass alone, so a marker written mid-scan can never affect the
    /// eligibility of a vertex evaluated later in the same pass.
    pub fn apply(
        &mut self,
        vertices: &mut Vec<PlaneVertex>,
        samples: &Vec<Vec<i64>>,
        cx: i64,
        cz: i64,
        radius: i64,
    )
        ensures
            *final(self) == *old(self),
            final(vertices)@.len() == old(vertices)@.len(),
            old(self).active ==> forall|i: int|
                0 <= i < old(vertices)@.len() ==> final(vertices)@[i] == height_step(
                    *old(self),
                    old(vertices)@[i],
                    sample_row(samples@, i),
                    cx as int,
                    cz as int,
                    radius as int,
                ),
            !old(self).active ==> final(vertices)@ == old(vertices)@,
    {
        if !self.active {
            return ;
        }
        let n: usize = vertices.len();
        let empty: Vec<i64> = Vec::new();
        for i in 0..n
            invariant
                *self == *old(self),
                self.active,
                empty@ == Seq::<i64>::empty(),
                n == vertices@.len(),
                vertices@.len() == old(vertices)@.len(),
                forall|j: int|
                    0 <= j < i ==> vertices@[j] == height_step(
                        *old(self),
                        old(vertices)@[j],
                        sample_row(samples@, j),
                        cx as int,
                        cz as int,
                        radius as int,
                    ),
                forall|j: int| i <= j < n ==> vertices@[j] == old(vertices)@[j],
        {
            let v: PlaneVertex = vertices[i];
            if v.is_near(cx, cz, radius) {
                if !v.selected {
                    let new_height: i64 = match &self.typ {
                        HeightBrushType::Value(delta) => sat_add(v.height, *delta),
                        HeightBrushType::Terraces(bands) => terrace_height(bands, v.height),
                        HeightBrushType::Noise(layers, scale) => {
                            let row: &Vec<i64> = if i < samples.len() {
                                &samples[i]
                            } else {
                                &empty
                            };
                            let combined: i64 = combine_samples(row);
                            fixed_scale(combined, *scale)
                        },
                    };
                    vertices[i].height = new_height;
                    vertices[i].selected = true;
                }
            } else {
                if self.reselection {
                    vertices[i].selected = false;
                }
            }
        }
    }

    /// End the stroke: clear every selection marker and return to Idle.
    pub fn done(&mut self, vertices: &mut Vec<PlaneVertex>)
        ensures
            *final(self) == (TerrainHeightBrush { active: false, ..*old(self) }),
            final(vertices)@.len() == old(vertices)@.len(),
            forall|i: int|
                0 <= i < old(vertices)@.len() ==> final(vertices)@[i] == (PlaneVertex {
                    selected: false,
                    ..old(vertices)@[i]
                }),
    {
        clear_all(vertices);
        self.active = false;
    }
}

impl TerrainColorBrush {
    /// Begin a stroke. A hook reserved for per-stroke setup; today it only
    /// arms the brush.
    pub fn started(&mut self)
        ensures
            *final(self) == (TerrainColorBrush { active: true, ..*old(self) }),
    {
        self.active = true;
    }

    /// One brush pass over the vertices, as for the height brush; only the
    /// colors change, and out-of-reach vertices are always released.
    pub fn apply(
        &mut self,
        vertices: &mut Vec<PlaneVertex>,
        samples: &Vec<Vec<i64>>,
        cx: i64,
        cz: i64,
        radius: i64,
    )
        ensures
            *final(self) == *old(self),
            final(vertices)@.len() == old(vertices)@.len(),
            old(self).active ==> forall|i: int|
                0 <= i < old(vertices)@.len() ==> final(vertices)@[i] == color_step(
                    *old(self),
                    old(vertices)@[i],
                    sample_row(samples@, i),
                    cx as int,
                    cz as int,
                    radius as int,
                ),
            !old(self).active ==> final(vertices)@ == old(vertices)@,
    {
        if !self.active {
            return ;
        }
        let n: usize = vertices.len();
        let empty: Vec<i64> = Vec::new();
        for i in 0..n
            invariant
                *self == *old(self),
                self.active,
                empty@ == Seq::<i64>::empty(),
                n == vertices@.len(),
                vertices@.len() == old(vertices)@.len(),
                forall|j: int|
                    0 <= j < i ==> vertices@[j] == color_step(
                        *old(self),
                        old(vertices)@[j],
                        sample_row(samples@, j),
                        cx as int,
                        cz as int,
                        radius as int,
                    ),
                forall|j: int| i <= j < n ==> vertices@[j] == old(vertices)@[j],
        {
            let v: PlaneVertex = vertices[i];
            if v.is_near(cx, cz, radius) {
                if !v.selected {
                    let new_clr: [i64; 4] = match &self.typ {
                        ColorBrushType::Value { clr } => *clr,
                        ColorBrushType::Range { min, max, min_clr, max_clr } => {
                            if *min <= v.height && v.height <= *max {
                                [
                                    lerp(min_clr[0], max_clr[0], v.height, *min, *max),
                                    lerp(min_clr[1], max_clr[1], v.height, *min, *max),
                                    lerp(min_clr[2], max_clr[2], v.height, *min, *max),
                                    lerp(min_clr[3], max_clr[3], v.height, *min, *max),
                                ]
                            } else {
                                v.clr
                            }
                        },
                        ColorBrushType::Noise { data, value, clr } => {
                            let row: &Vec<i64> = if i < samples.len() {
                                &samples[i]
                            } else {
                                &empty
                            };
                            let combined: i64 = combine_samples(row);
                            let alpha: i64 = clamp_to_unit(fixed_scale(combined, *value));
                            [clr[0], clr[1], clr[2], alpha]
                        },
                    };
                    vertices[i].clr = new_clr;
                    vertices[i].selected = true;
                }
            } else {
                vertices[i].selected = false;
            }
        }
    }

    /// End the stroke: clear every selection marker and return to Idle.
    pub fn done(&mut self, vertices: &mut Vec<PlaneVertex>)
        ensures
            *final(self) == (TerrainColorBrush { active: false, ..*old(self) }),
            final(vertices)@.len() == old(vertices)@.len(),
            forall|i: int|
                0 <= i < old(vertices)@.len() ==> final(vertices)@[i] == (PlaneVertex {
                    selected: false,
                    ..old(vertices)@[i]
                }),
    {
        clear_all(vertices);
        self.active = false;
    }
}

// What follows are the engine's laws: guarantees that hold across whole
// passes and across passes within one stroke, stated over the per-vertex
// step functions that the `apply` contracts are written in.

/// Law: a vertex that lies outside radius + footprint and carries no
/// marker is left entirely unchanged by an `apply` pass, whichever brush
/// and policy are in force.
pub proof fn lemma_height_far_unmarked_unchanged(
    b: TerrainHeightBrush,
    v: PlaneVertex,
    samples: Seq<i64>,
    cx: int,
    cz: int,
    radius: int,
)
    requires
        !near_spec(v, cx, cz, radius),
        !v.selected,
    ensures
        height_step(b, v, samples, cx, cz, radius) == v,
{
}

/// Law: a vertex that lies outside radius + footprint and carries no
/// marker is left entirely unchanged by a color pass.
pub proof fn lemma_color_far_unmarked_unchanged(
    b: TerrainColorBrush,
    v: PlaneVertex,
    samples: Seq<i64>,
    cx: int,
    cz: int,
    radius: int,
)
    requires
        !near_spec(v, cx, cz, radius),
        !v.selected,
    ensures
        color_step(b, v, samples, cx, cz, radius) == v,
{
}

/// Law: within one stroke, a second height pass at the same contact point
/// and radius changes nothing: a vertex the first pass mutated is now
/// marked and is skipped, and the other cases are fixpoints already. The
/// second pass's samples play no part.
pub proof fn lemma_height_pass_idempotent(
    b: TerrainHeightBrush,
    v: PlaneVertex,
    s1: Seq<i64>,
    s2: Seq<i64>,
    cx: int,
    cz: int,
    radius: int,
)
    ensures
        height_step(b, height_step(b, v, s1, cx, cz, radius), s2, cx, cz, radius) == height_step(
            b,
            v,
            s1,
            cx,
            cz,
            radius,
        ),
{
}

/// Law: within one stroke, a second color pass at the same contact point
/// and radius changes nothing.
pub proof fn lemma_color_pass_idempotent(
    b: TerrainColorBrush,
    v: PlaneVertex,
    s1: Seq<i64>,
    s2: Seq<i64>,
    cx: int,
    cz: int,
    radius: int,
)
    ensures
        color_step(b, color_step(b, v, s1, cx, cz, radius), s2, cx, cz, radius) == color_step(
            b,
            v,
            s1,
            cx,
            cz,
            radius,
        ),
{
}

/// Law of the immediate-release policy: a pass whose contact circle does
/// not reach a marked vertex clears its marker, and a later pass in the
/// same stroke that reaches the vertex again mutates it again.
pub proof fn lemma_immediate_release_remutates(
    b: TerrainHeightBrush,
    v: PlaneVertex,
    s1: Seq<i64>,
    s2: Seq<i64>,
    cx1: int,
    cz1: int,
    r1: int,
    cx2: int,
    cz2: int,
    r2: int,
)
    requires
        b.reselection,
        v.selected,
        !near_spec(v, cx1, cz1, r1),
        near_spec(v, cx2, cz2, r2),
    ensures
        ({
            let released = height_step(b, v, s1, cx1, cz1, r1);
            &&& released == (PlaneVertex { selected: false, ..v })
            &&& height_step(b, released, s2, cx2, cz2, r2) == (PlaneVertex {
                selected: true,
                height: height_result(b.typ, released, s2) as i64,
                ..released
            })
        }),
{
}

/// Law of the stroke-scoped policy: a marked vertex that leaves the reach
/// keeps its marker, and passes that reach it again still skip it; until
/// `done`, no further pass of the stroke mutates it.
pub proof fn lemma_stroke_scoped_blocks(
    b: TerrainHeightBrush,
    v: PlaneVertex,
    s1: Seq<i64>,
    s2: Seq<i64>,
    cx1: int,
    cz1: int,
    r1: int,
    cx2: int,
    cz2: int,
    r2: int,
)
    requires
        !b.reselection,
        v.selected,
        !near_spec(v, cx1, cz1, r1),
        near_spec(v, cx2, cz2, r2),
    ensures
        height_step(b, v, s1, cx1, cz1, r1) == v,
        height_step(b, v, s2, cx2, cz2, r2) == v,
{
}

} // verus!
