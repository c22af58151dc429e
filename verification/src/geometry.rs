//! Quad geometry for sprites.
//!
//! A sprite is drawn as a screen-aligned quad of six vertices (two
//! triangles).  Its half-extent on each axis is the exact ratio of the
//! sprite's pixel size to the program's output resolution, so a sprite's
//! on-screen size is proportional to its source resolution relative to the
//! frame resolution.  Coordinates are kept as exact rationals (numerator over
//! denominator) so the aspect-ratio contract holds with no rounding at all;
//! the GPU layer divides them out to floating point only at upload time.

use vstd::prelude::*;

verus! {

/// One position coordinate, the exact rational value `num / den`.
#[derive(Clone, Copy, PartialEq, Eq, Structural, Debug)]
pub struct Coord {
    /// Signed numerator.
    pub num: i64,
    /// Denominator; positive for every coordinate this crate produces.
    pub den: u32,
}

impl Coord {
    /// A coordinate is well formed when its denominator is positive, so that
    /// it denotes a rational number.
    pub open spec fn wf(self) -> bool {
        self.den > 0
    }

    /// The exact rational `self` denotes equals `n / d` (by cross
    /// multiplication, so no division is ever performed).
    pub open spec fn is_ratio(self, n: int, d: int) -> bool {
        self.num * d == n * self.den
    }
}

/// One vertex of a sprite quad: a position and the texture coordinate it
/// samples the source image at.
#[derive(Clone, Copy, Debug)]
#[verifier::ext_equal]
pub struct Vertex {
    /// Position on the output surface, x then y.
    pub position: [Coord; 2],
    /// Texture coordinate, u then v; each component is 0 or 1 because a quad
    /// always samples the full source image.
    pub tex_coords: [u32; 2],
}

/// Whether the vertex at index `i` of the quad lies on the right edge.
/// The triangle order is: bottom-left, bottom-right, top-right for the first
/// triangle, then top-right, top-left, bottom-left for the second.
pub open spec fn vertex_on_right(i: int) -> bool {
    i == 1 || i == 2 || i == 3
}

/// Whether the vertex at index `i` of the quad lies on the top edge.
pub open spec fn vertex_on_top(i: int) -> bool {
    i == 2 || i == 3 || i == 4
}

/// The shape `s` is exactly the six-vertex quad for a sprite of pixel size
/// `w` by `h` rendered at output resolution `out_w` by `out_h`: every
/// position is `(+-(w / out_w), +-(h / out_h))`, centered on the origin, and
/// the texture coordinates span the full source image.
pub open spec fn is_quad_shape(s: Seq<Vertex>, out_w: u32, out_h: u32, w: u32, h: u32) -> bool {
    &&& s.len() == 6
    &&& forall|i: int|
        0 <= i < 6 ==> {
            let v = #[trigger] s[i];
            &&& v.position[0].den == out_w
            &&& v.position[1].den == out_h
            &&& v.position[0].num == (if vertex_on_right(i) {
                w as int
            } else {
                -(w as int)
            })
            &&& v.position[1].num == (if vertex_on_top(i) {
                h as int
            } else {
                -(h as int)
            })
            &&& v.tex_coords[0] == (if vertex_on_right(i) {
                1u32
            } else {
                0u32
            })
            &&& v.tex_coords[1] == (if vertex_on_top(i) {
                1u32
            } else {
                0u32
            })
        }
}

/// Builds the six-vertex quad for a sprite of pixel size `dims_2` drawn at
/// output resolution `dims_1`.  The scaling factor per axis is the exact
/// rational `dims_2 / dims_1`, so the quad's extents are
/// `(+-(dims_2[0] / dims_1[0]), +-(dims_2[1] / dims_1[1]))` with no drift.
pub fn generate_shape(dims_1: [u32; 2], dims_2: [u32; 2]) -> (shape: Vec<Vertex>)
    requires
        dims_1[0] > 0,
        dims_1[1] > 0,
    ensures
        is_quad_shape(shape@, dims_1[0], dims_1[1], dims_2[0], dims_2[1]),
        forall|i: int| 0 <= i < 6 ==> (#[trigger] shape@[i].position[0]).wf(),
        forall|i: int| 0 <= i < 6 ==> (#[trigger] shape@[i].position[1]).wf(),
{
    let pos_x = Coord { num: dims_2[0] as i64, den: dims_1[0] };
    let neg_x = Coord { num: -(dims_2[0] as i64), den: dims_1[0] };
    let pos_y = Coord { num: dims_2[1] as i64, den: dims_1[1] };
    let neg_y = Coord { num: -(dims_2[1] as i64), den: dims_1[1] };

    let bottom_left = Vertex { position: [neg_x, neg_y], tex_coords: [0, 0] };
    let bottom_right = Vertex { position: [pos_x, neg_y], tex_coords: [1, 0] };
    let top_right = Vertex { position: [pos_x, pos_y], tex_coords: [1, 1] };
    let top_left = Vertex { position: [neg_x, pos_y], tex_coords: [0, 1] };

    let shape: Vec<Vertex> = vec![
        bottom_left,
        bottom_right,
        top_right,
        top_right,
        top_left,
        bottom_left,
    ];
    shape
}

/// Aspect-ratio law: every vertex of a quad shape for a `w` by `h` sprite at
/// `out_w` by `out_h` output sits at exactly `+-(w / out_w)` horizontally and
/// `+-(h / out_h)` vertically (as exact rationals, by cross multiplication),
/// and both extremes of each axis are attained, so the extents are symmetric
/// about the origin.
pub proof fn lemma_quad_aspect_ratio(s: Seq<Vertex>, out_w: u32, out_h: u32, w: u32, h: u32)
    requires
        is_quad_shape(s, out_w, out_h, w, h),
    ensures
        forall|i: int|
            0 <= i < 6 ==> (#[trigger] s[i]).position[0].is_ratio(w as int, out_w as int)
                || s[i].position[0].is_ratio(-(w as int), out_w as int),
        forall|i: int|
            0 <= i < 6 ==> (#[trigger] s[i]).position[1].is_ratio(h as int, out_h as int)
                || s[i].position[1].is_ratio(-(h as int), out_h as int),
        s[0].position[0].is_ratio(-(w as int), out_w as int),
        s[1].position[0].is_ratio(w as int, out_w as int),
        s[0].position[1].is_ratio(-(h as int), out_h as int),
        s[2].position[1].is_ratio(h as int, out_h as int),
{
}

} // verus!
