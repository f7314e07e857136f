//! A small real-time 3D engine core: an entity/component scene, input state,
//! viewport layout and the decisions the Vulkan backend makes about devices,
//! swapchains, memory and frames.

pub mod error;
pub mod viewport;
pub mod scene;
pub mod backend;
pub mod constants;
pub mod frame_state;
pub mod mesh_indices;
pub mod primitives;
pub mod rendering;
pub mod resources;
pub mod shared;
