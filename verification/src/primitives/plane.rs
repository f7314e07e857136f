//! A single upright triangle of side 4 in the XY plane.
use vstd::prelude::*;

use crate::mesh_indices::is_triangle_list;

verus! {

/// The triangle primitive; its vertices live with the float geometry.
#[derive(Clone, Copy, Debug)]
pub struct Plane;

impl Plane {
    /// Vertices: top left, bottom right, bottom left.
    pub const VERTEX_COUNT: usize = 3;

    /// One triangle, wound top left, bottom left, bottom right.
    pub fn indices() -> (r: Vec<u32>)
        ensures
            r@ == seq![0u32, 2, 1],
            is_triangle_list(r@, Self::VERTEX_COUNT as nat),
    {
        vec![0, 2, 1]
    }
}

} // verus!
