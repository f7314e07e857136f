//! Engine-wide settings.
use vstd::prelude::*;

verus! {

/// How many frames the CPU may record ahead of the GPU.
pub const MAX_FRAMES_IN_FLIGHT: usize = 2;

} // verus!
