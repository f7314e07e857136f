//! Errors of the engine.
use vstd::prelude::*;

verus! {

/// Vulkan's `VK_ERROR_OUT_OF_DATE_KHR`.
pub const VK_ERROR_OUT_OF_DATE_KHR: i32 = -1_000_001_004;

/// What can go wrong in the engine. Vulkan results are their raw codes;
/// failures of outside libraries carry their message.
#[derive(Clone, Debug, PartialEq, Eq)]
pub enum EngineError {
    /// A Vulkan call failed while doing `operation`.
    Vulkan { operation: &'static str, result: i32 },
    /// A file could not be read while doing `operation`.
    Io { operation: &'static str, message: String },
    /// An image file could not be loaded.
    Image { path: String, message: String },
    /// An OBJ file could not be imported.
    Obj { path: String, message: String },
    /// The egui renderer failed.
    EguiRenderer(String),
    /// No physical device can present to the window.
    NoCompatibleDevice,
    /// The window has no area to draw into.
    ZeroSizedWindow,
    /// The swapchain no longer matches the window.
    SwapchainOutOfDate,
    /// Any other failure.
    Message(String),
}

pub type Result<T> = core::result::Result<T, EngineError>;

impl EngineError {
    /// The error of a failed Vulkan call.
    pub fn vk(operation: &'static str, result: i32) -> (e: Self)
        ensures
            e == (EngineError::Vulkan { operation, result }),
    {
        EngineError::Vulkan { operation, result }
    }
}

} // verus!
