//! A mesh vertex: model-space attributes plus the screen-space fields
//! the transform stage fills in.

use vstd::prelude::*;
use crate::fixed::fp_ok;
use crate::linear::{Vec2, Vec3};

verus! {

#[derive(Clone, Copy, PartialEq, Eq, Structural, Debug)]
pub struct Vertex {
    /// Model-space position.
    pub position: Vec3,
    /// Model-space normal.
    pub normal: Vec3,
    /// Texture coordinate, carried through but unused by shading.
    pub tex_coords: Vec2,
    /// The per-vertex scalar intensity weight.
    pub intensity: i64,
    /// Screen-space position, meaningful only after the transform
    /// stage has produced this vertex.
    pub transformed_position: Vec3,
    /// World-space normal, filled in alongside the screen position.
    pub transformed_normal: Vec3,
}

impl Vertex {
    pub open spec fn wf(self) -> bool {
        &&& self.position.wf()
        &&& self.normal.wf()
        &&& self.tex_coords.wf()
        &&& fp_ok(self.intensity as int)
        &&& self.transformed_position.wf()
        &&& self.transformed_normal.wf()
    }

    /// A source-mesh vertex; the transformed fields start at zero and
    /// are only meaningful once the transform stage has run.
    pub fn new(position: Vec3, normal: Vec3, tex_coords: Vec2, intensity: i64) -> (v: Vertex)
        requires
            position.wf(),
            normal.wf(),
            tex_coords.wf(),
            fp_ok(intensity as int),
        ensures
            v.position == position,
            v.normal == normal,
            v.tex_coords == tex_coords,
            v.intensity == intensity,
            v.transformed_position == (Vec3 { x: 0i64, y: 0i64, z: 0i64 }),
            v.transformed_normal == (Vec3 { x: 0i64, y: 0i64, z: 0i64 }),
            v.wf(),
    {
        Vertex {
            position,
            normal,
            tex_coords,
            intensity,
            transformed_position: Vec3 { x: 0, y: 0, z: 0 },
            transformed_normal: Vec3 { x: 0, y: 0, z: 0 },
        }
    }
}

} // verus!
