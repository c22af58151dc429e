//! Placement of drawables and the global view.
//!
//! Positions are fixed point: a coordinate stores thousandths of a world
//! unit, so placement is exact and free of rounding.  A transform is a
//! translation (realized as a matrix by the GPU layer); the camera is the
//! one transform applied globally when the accumulated image is blitted to
//! the visible surface.

use vstd::prelude::*;

verus! {

/// Fixed-point scale used throughout the crate: a stored value of 1000
/// denotes 1.0.
pub const FX_ONE: i64 = 1000;

/// A drawable's 2D affine placement: a translation, stored exactly in
/// thousandths of a world unit (x, y, z).  Mutable between frames by the
/// caller; the GPU layer turns it into the 4x4 matrix the shaders consume.
#[derive(Clone, Copy, Debug)]
pub struct Transform {
    pub position: [i64; 3],
}

impl Transform {
    /// A transform that translates by `position` (thousandths of a unit).
    pub fn new(position: [i64; 3]) -> (t: Transform)
        ensures
            t.position == position,
    {
        Transform { position }
    }

    /// Replaces the translation, leaving nothing else of the transform.
    pub fn set_position(&mut self, x: i64, y: i64, z: i64)
        ensures
            final(self).position[0] == x,
            final(self).position[1] == y,
            final(self).position[2] == z,
    {
        self.position = [x, y, z];
    }
}

/// The view transform applied globally during compositing: a translation of
/// the whole accumulated image, in thousandths of a world unit.  The default
/// camera at the origin is a pass-through.
#[derive(Clone, Copy, Debug)]
pub struct Camera {
    pub position: [i64; 3],
}

impl Camera {
    /// A camera placed at `position` (thousandths of a unit).
    pub fn new(position: [i64; 3]) -> (c: Camera)
        ensures
            c.position == position,
    {
        Camera { position }
    }
}

} // verus!
