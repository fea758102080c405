//! An earlier height brush: it only raises or lowers by a fixed delta.
//!
//! This revision scans the unmarked vertices alone, marks each one it
//! reaches and shifts its height; marked vertices are never revisited and
//! nothing here clears markers, not even `done`. The brushes in
//! `crate::terrain_brushes` supersede it.

use crate::fixed::add_fixed;
use crate::fixed::sat_add;
use crate::vertex::near_spec;
use crate::vertex::PlaneVertex;
use vstd::prelude::*;

verus! {

/// A height brush that adds `y_change` to every vertex it reaches.
#[derive(Clone, Copy)]
pub struct TerrainHeightBrush {
    pub y_change: i64,
}

/// One pass of this brush, seen from a single vertex: an unmarked vertex
/// within reach is marked and shifted; every other vertex is untouched.
pub open spec fn editor_step(
    b: TerrainHeightBrush,
    v: PlaneVertex,
    cx: int,
    cz: int,
    radius: int,
) -> PlaneVertex {
    if !v.selected && near_spec(v, cx, cz, radius) {
        PlaneVertex {
            selected: true,
            height: add_fixed(v.height as int, b.y_change as int) as i64,
            ..v
        }
    } else {
        v
    }
}

impl TerrainHeightBrush {
    /// One pass over the vertices at contact point `(cx, cz)` with brush
    /// radius `radius`.
    pub fn apply(&mut self, vertices: &mut Vec<PlaneVertex>, cx: i64, cz: i64, radius: i64)
        ensures
            *final(self) == *old(self),
            final(vertices)@.len() == old(vertices)@.len(),
            forall|i: int|
                0 <= i < old(vertices)@.len() ==> final(vertices)@[i] == editor_step(
                    *old(self),
                    old(vertices)@[i],
                    cx as int,
                    cz as int,
                    radius as int,
                ),
    {
        let n: usize = vertices.len();
        for i in 0..n
            invariant
                *self == *old(self),
                n == vertices@.len(),
                vertices@.len() == old(vertices)@.len(),
                forall|j: int|
                    0 <= j < i ==> vertices@[j] == editor_step(
                        *old(self),
                        old(vertices)@[j],
                        cx as int,
                        cz as int,
                        radius as int,
                    ),
                forall|j: int| i <= j < n ==> vertices@[j] == old(vertices)@[j],
        {
            let v: PlaneVertex = vertices[i];
            if !v.selected && v.is_near(cx, cz, radius) {
                let new_height: i64 = sat_add(v.height, self.y_change);
                vertices[i].height = new_height;
                vertices[i].selected = true;
            }
        }
    }

    /// Ending a stroke changes nothing for this brush; in particular it
    /// leaves all markers standing.
    pub fn done(&mut self)
        ensures
            *final(self) == *old(self),
    {
    }

    /// Beginning a stroke changes nothing for this brush.
    pub fn started(&mut self)
        ensures
            *final(self) == *old(self),
    {
    }
}

} // verus!
