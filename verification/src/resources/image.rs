//! A sampled texture image on the GPU.
use vstd::prelude::*;

use crate::rendering::GpuRelease;

verus! {

/// A texture: the raw handles of its `VkImage` and of the memory bound to it.
#[derive(Clone, Copy, Debug, PartialEq, Eq)]
pub struct Image {
    pub image: u64,
    pub memory: u64,
}

impl Image {
    /// What destroying the texture releases, in order: the image, then its
    /// memory.
    pub fn destroy(&self) -> (r: Vec<GpuRelease>)
        ensures
            r@ == seq![GpuRelease::Image(self.image), GpuRelease::Memory(self.memory)],
    {
        let mut r = Vec::new();
        r.push(GpuRelease::Image(self.image));
        r.push(GpuRelease::Memory(self.memory));
        r
    }
}

} // verus!
