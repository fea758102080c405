//! Terrain vertices and the stroke-scoped selection marker.
//!
//! A `PlaneVertex` carries the planar world position, the height, the
//! footprint radius (half the vertex's grid spacing), the color and the
//! selection marker of one terrain vertex, all in fixed point. The marker
//! records "touched during the current stroke"; brushes set it when they
//! mutate a vertex and clear it at the end of the stroke.

use vstd::math::abs;
use vstd::prelude::*;

verus! {

/// One terrain vertex, in fixed-point micro-units (see `fixed::MICRO`).
#[derive(Clone, Copy)]
pub struct PlaneVertex {
    /// Planar world position along the first horizontal axis.
    pub x: i64,
    /// Planar world position along the second horizontal axis.
    pub z: i64,
    /// Vertical position, the component the height brushes rewrite.
    pub height: i64,
    /// Footprint radius: the vertex also counts as hit when the contact
    /// circle only touches its footprint.
    pub radius: i64,
    /// Color as red, green, blue, alpha; MICRO encodes a channel value of one.
    pub clr: [i64; 4],
    /// The stroke-scoped selection marker.
    pub selected: bool,
}

/// Whether the vertex lies within `radius` of the contact point
/// `(cx, cz)`, extended by the vertex's own footprint radius. The planar
/// (height-blind) Euclidean distance is compared by squares, which is exact.
pub open spec fn near_spec(v: PlaneVertex, cx: int, cz: int, radius: int) -> bool {
    let reach = radius + v.radius as int;
    let dx = v.x as int - cx;
    let dz = v.z as int - cz;
    reach >= 0 && dx * dx + dz * dz <= reach * reach
}

/// The square of a value equals the square of its magnitude.
proof fn lemma_square_abs(x: int)
    ensures
        x * x == abs(x) * abs(x),
        x * x >= 0,
{
    assert(x * x == abs(x) as int * abs(x) as int && x * x >= 0) by (nonlinear_arith)
        requires
            abs(x) == if x >= 0 {
                x
            } else {
                -x
            },
    ;
}

impl PlaneVertex {
    /// Whether this vertex is within reach of a contact circle.
    pub fn is_near(&self, cx: i64, cz: i64, radius: i64) -> (r: bool)
        ensures
            r == near_spec(*self, cx as int, cz as int, radius as int),
    {
        let reach: i128 = radius as i128 + self.radius as i128;
        if reach < 0 {
            return false;
        }
        let dx: i128 = self.x as i128 - cx as i128;
        let dz: i128 = self.z as i128 - cz as i128;
        let udx: u128 = if dx >= 0 {
            dx as u128
        } else {
            (-dx) as u128
        };
        let udz: u128 = if dz >= 0 {
            dz as u128
        } else {
            (-dz) as u128
        };
        let ur: u128 = reach as u128;
        proof {
            lemma_square_abs(dx as int);
            lemma_square_abs(dz as int);
            assert(udx * udx == dx as int * dx as int && udx * udx
                <= 0xFFFF_FFFF_FFFF_FFFFu128 * 0xFFFF_FFFF_FFFF_FFFFu128) by (nonlinear_arith)
                requires
                    udx == abs(dx as int) && dx as int * dx as int == abs(dx as int) * abs(
                        dx as int,
                    ) && udx <= 0xFFFF_FFFF_FFFF_FFFFu128,
            ;
            assert(udz * udz == dz as int * dz as int && udz * udz
                <= 0xFFFF_FFFF_FFFF_FFFFu128 * 0xFFFF_FFFF_FFFF_FFFFu128) by (nonlinear_arith)
                requires
                    udz == abs(dz as int) && dz as int * dz as int == abs(dz as int) * abs(
                        dz as int,
                    ) && udz <= 0xFFFF_FFFF_FFFF_FFFFu128,
            ;
            assert(ur * ur <= 0xFFFF_FFFF_FFFF_FFFFu128 * 0xFFFF_FFFF_FFFF_FFFFu128)
                by (nonlinear_arith)
                requires
                    ur <= 0xFFFF_FFFF_FFFF_FFFFu128,
            ;
        }
        let r2: u128 = ur * ur;
        let dx2: u128 = udx * udx;
        if dx2 > r2 {
            return false;
        }
        let dz2: u128 = udz * udz;
        dz2 <= r2 - dx2
    }

    /// Whether this vertex is marked as touched during the current stroke.
    pub fn is_marked(&self) -> (r: bool)
        ensures
            r == self.selected,
    {
        self.selected
    }

    /// Mark this vertex as touched during the current stroke.
    pub fn mark(&mut self)
        ensures
            *final(self) == (PlaneVertex { selected: true, ..*old(self) }),
    {
        self.selected = true;
    }

    /// Clear this vertex's selection marker.
    pub fn unmark(&mut self)
        ensures
            *final(self) == (PlaneVertex { selected: false, ..*old(self) }),
    {
        self.selected = false;
    }
}

/// Clear the selection marker of every vertex, leaving all other fields
/// untouched. Invoked exactly once per stroke, when the stroke ends.
pub fn clear_all(vertices: &mut Vec<PlaneVertex>)
    ensures
        final(vertices)@.len() == old(vertices)@.len(),
        forall|i: int|
            0 <= i < old(vertices)@.len() ==> final(vertices)@[i] == (PlaneVertex {
                selected: false,
                ..old(vertices)@[i]
            }),
{
    let n: usize = vertices.len();
    for i in 0..n
        invariant
            n == vertices@.len(),
            forall|j: int|
                0 <= j < i ==> vertices@[j] == (PlaneVertex {
                    selected: false,
                    ..old(vertices)@[j]
                }),
            forall|j: int| i <= j < n ==> vertices@[j] == old(vertices)@[j],
    {
        vertices[i].selected = false;
    }
}

} // verus!
