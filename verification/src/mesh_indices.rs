//! Index buffers of triangle lists.
use vstd::prelude::*;

verus! {

/// A triangle list over `vertex_count` vertices: whole triangles, every
/// index naming a vertex.
pub open spec fn is_triangle_list(indices: Seq<u32>, vertex_count: nat) -> bool {
    &&& indices.len() % 3 == 0
    &&& forall|i: int| 0 <= i < indices.len() ==> (#[trigger] indices[i]) < vertex_count
}

} // verus!
