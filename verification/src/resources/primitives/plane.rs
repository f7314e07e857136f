//! A 20 x 20 square at height 0 and a second one at height 10.
use vstd::prelude::*;

use crate::mesh_indices::is_triangle_list;

verus! {

/// The double-square primitive; its vertices live with the float geometry.
#[derive(Clone, Copy, Debug)]
pub struct Plane;

impl Plane {
    /// Four corners at height 0, then four at height 10.
    pub const VERTEX_COUNT: usize = 8;

    /// Two triangles per square.
    pub fn indices() -> (r: Vec<u32>)
        ensures
            r@ == seq![0u32, 1, 2, 2, 3, 0, 4, 5, 6, 6, 7, 4],
            is_triangle_list(r@, Self::VERTEX_COUNT as nat),
    {
        let r: Vec<u32> = vec![0, 1, 2, 2, 3, 0, 4, 5, 6, 6, 7, 4];
        proof {
            assert(r@ =~= seq![0u32, 1, 2, 2, 3, 0, 4, 5, 6, 6, 7, 4]);
        }
        r
    }
}

} // verus!
