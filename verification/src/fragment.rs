//! A fragment: the per-pixel unit of shading work a rasterized
//! triangle produces.

use vstd::prelude::*;
use crate::fixed::fp_ok;
use crate::linear::Vec3;

verus! {

#[derive(Clone, Copy, PartialEq, Eq, Structural, Debug)]
pub struct Fragment {
    /// Integer pixel column.
    pub x: i64,
    /// Integer pixel row.
    pub y: i64,
    /// Interpolated normalized depth.
    pub depth: i64,
    /// Interpolated world-space normal.
    pub normal: Vec3,
    /// Interpolated model-space position, the shading coordinate.
    pub vertex_position: Vec3,
    /// Interpolated intensity weight.
    pub intensity: i64,
}

impl Fragment {
    pub open spec fn wf(self) -> bool {
        &&& fp_ok(self.x as int)
        &&& fp_ok(self.y as int)
        &&& fp_ok(self.depth as int)
        &&& self.normal.wf()
        &&& self.vertex_position.wf()
        &&& fp_ok(self.intensity as int)
    }

    pub fn new(x: i64, y: i64, depth: i64, normal: Vec3, vertex_position: Vec3, intensity: i64) -> (f: Fragment)
        requires
            fp_ok(x as int),
            fp_ok(y as int),
            fp_ok(depth as int),
            normal.wf(),
            vertex_position.wf(),
            fp_ok(intensity as int),
        ensures
            f == (Fragment { x, y, depth, normal, vertex_position, intensity }),
            f.wf(),
    {
        Fragment { x, y, depth, normal, vertex_position, intensity }
    }
}

} // verus!
