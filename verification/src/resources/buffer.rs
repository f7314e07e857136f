//! Descriptions of GPU buffers.
use vstd::prelude::*;

verus! {

/// Whether a buffer's memory is mapped into the address space, and where.
#[derive(Clone, Copy, Debug, PartialEq, Eq)]
pub enum VBufferState {
    UNMAPPED,
    /// Mapped at this host address.
    MAPPED(usize),
}

/// The size in bytes of a buffer to create.
#[derive(Clone, Copy, Debug, PartialEq, Eq)]
pub struct VBufferConfig {
    pub size: u64,
}

/// An allocation request: size, allowed memory types (a bit per type) and
/// required `VkMemoryPropertyFlags`.
#[derive(Clone, Copy, Debug, PartialEq, Eq)]
pub struct VAllocateMemoryConfig {
    pub size: u64,
    pub memory_type: u32,
    pub properties: u32,
}

} // verus!
