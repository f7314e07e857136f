//! A unit cube centred at the origin, four vertices per face.
use vstd::prelude::*;

use crate::mesh_indices::is_triangle_list;

verus! {

/// The cube primitive; its vertices live with the float geometry.
#[derive(Clone, Copy, Debug)]
pub struct Cube;

impl Cube {
    /// Front, back, left, right, bottom and top faces, four vertices each.
    pub const VERTEX_COUNT: usize = 24;

    /// Two triangles per face.
    pub fn indices() -> (r: Vec<u32>)
        ensures
            r@ == seq![
                0u32, 1, 2, 0, 2, 3, 4, 6, 5, 4, 7, 6, 8, 9, 10, 8, 10, 11, 12, 13, 14, 12, 14, 15,
                16, 17, 18, 16, 18, 19, 20, 21, 22, 20, 22, 23,
            ],
            is_triangle_list(r@, Self::VERTEX_COUNT as nat),
    {
        let r: Vec<u32> = vec![
            0, 1, 2, 0, 2, 3, 4, 6, 5, 4, 7, 6, 8, 9, 10, 8, 10, 11, 12, 13, 14, 12, 14, 15, 16,
            17, 18, 16, 18, 19, 20, 21, 22, 20, 22, 23,
        ];
        proof {
            assert(r@ =~= seq![
                0u32, 1, 2, 0, 2, 3, 4, 6, 5, 4, 7, 6, 8, 9, 10, 8, 10, 11, 12, 13, 14, 12, 14, 15,
                16, 17, 18, 16, 18, 19, 20, 21, 22, 20, 22, 23,
            ]);
        }
        r
    }
}

} // verus!
