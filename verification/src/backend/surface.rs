//! Choices about the surface a swapchain presents to: format, present mode,
//! extent and image count.
use vstd::prelude::*;

use crate::viewport::{clamp_spec, clamp_u32};

verus! {

/// `VK_FORMAT_R8G8B8A8_SRGB`.
pub const FORMAT_R8G8B8A8_SRGB: i32 = 43;
/// `VK_FORMAT_B8G8R8A8_SRGB`.
pub const FORMAT_B8G8R8A8_SRGB: i32 = 50;
/// `VK_FORMAT_A8B8G8R8_SRGB_PACK32`.
pub const FORMAT_A8B8G8R8_SRGB_PACK32: i32 = 57;
/// `VK_COLOR_SPACE_SRGB_NONLINEAR_KHR`.
pub const COLOR_SPACE_SRGB_NONLINEAR: i32 = 0;
/// `VK_PRESENT_MODE_MAILBOX_KHR`.
pub const PRESENT_MODE_MAILBOX: i32 = 1;
/// `VK_PRESENT_MODE_FIFO_KHR`.
pub const PRESENT_MODE_FIFO: i32 = 2;

/// A surface format: a `VkFormat` and a `VkColorSpaceKHR`.
#[derive(Clone, Copy, Debug, PartialEq, Eq)]
pub struct SurfaceFormat {
    pub format: i32,
    pub color_space: i32,
}

/// A width and height in pixels.
#[derive(Clone, Copy, Debug, PartialEq, Eq)]
pub struct Extent2D {
    pub width: u32,
    pub height: u32,
}

/// What the surface allows for swapchains (`VkSurfaceCapabilitiesKHR`, the
/// fields the engine reads).
#[derive(Clone, Copy, Debug, PartialEq, Eq)]
pub struct SurfaceCapabilities {
    pub min_image_count: u32,
    /// Zero when there is no upper limit.
    pub max_image_count: u32,
    pub min_image_extent: Extent2D,
    pub max_image_extent: Extent2D,
    /// `VkSurfaceTransformFlagsKHR`.
    pub current_transform: u32,
}

/// The format the engine prefers: 8-bit BGRA in sRGB.
pub open spec fn preferred_surface_format() -> SurfaceFormat {
    SurfaceFormat { format: FORMAT_B8G8R8A8_SRGB, color_space: COLOR_SPACE_SRGB_NONLINEAR }
}

/// The preferred format if the surface offers it, else the first offered.
pub fn choose_surface_format(formats: &[SurfaceFormat]) -> (r: SurfaceFormat)
    requires
        formats@.len() > 0,
    ensures
        r == if formats@.contains(preferred_surface_format()) {
            preferred_surface_format()
        } else {
            formats@[0]
        },
{
    let mut i: usize = 0;
    while i < formats.len()
        invariant
            i <= formats@.len(),
            forall|j: int| 0 <= j < i ==> formats@[j] != preferred_surface_format(),
        decreases formats.len() - i,
    {
        let f = formats[i];
        if f.format == FORMAT_B8G8R8A8_SRGB && f.color_space == COLOR_SPACE_SRGB_NONLINEAR {
            proof {
                assert(formats@[i as int] == preferred_surface_format());
            }
            return f;
        }
        i = i + 1;
    }
    formats[0]
}

/// Mailbox if the surface offers it, else FIFO (always available).
pub fn choose_present_mode(present_modes: &[i32]) -> (r: i32)
    ensures
        r == if present_modes@.contains(PRESENT_MODE_MAILBOX) {
            PRESENT_MODE_MAILBOX
        } else {
            PRESENT_MODE_FIFO
        },
{
    let mut i: usize = 0;
    while i < present_modes.len()
        invariant
            i <= present_modes@.len(),
            forall|j: int| 0 <= j < i ==> present_modes@[j] != PRESENT_MODE_MAILBOX,
        decreases present_modes.len() - i,
    {
        if present_modes[i] == PRESENT_MODE_MAILBOX {
            return PRESENT_MODE_MAILBOX;
        }
        i = i + 1;
    }
    PRESENT_MODE_FIFO
}

/// The window size clamped into what the surface allows.
pub fn choose_extent(width: u32, height: u32, capabilities: &SurfaceCapabilities) -> (r: Extent2D)
    requires
        capabilities.min_image_extent.width <= capabilities.max_image_extent.width,
        capabilities.min_image_extent.height <= capabilities.max_image_extent.height,
    ensures
        r.width == clamp_spec(width as int, capabilities.min_image_extent.width as int, capabilities.max_image_extent.width as int),
        r.height == clamp_spec(height as int, capabilities.min_image_extent.height as int, capabilities.max_image_extent.height as int),
{
    Extent2D {
        width: clamp_u32(width, capabilities.min_image_extent.width, capabilities.max_image_extent.width),
        height: clamp_u32(height, capabilities.min_image_extent.height, capabilities.max_image_extent.height),
    }
}

/// One image more than the minimum, unless that exceeds a set maximum.
pub fn swapchain_image_count(capabilities: &SurfaceCapabilities) -> (r: u32)
    requires
        capabilities.min_image_count < u32::MAX,
    ensures
        r == if capabilities.max_image_count > 0 && capabilities.min_image_count + 1 > capabilities.max_image_count {
            capabilities.max_image_count as int
        } else {
            capabilities.min_image_count + 1
        },
{
    let mut image_count = capabilities.min_image_count + 1;
    if capabilities.max_image_count > 0 && image_count > capabilities.max_image_count {
        image_count = capabilities.max_image_count;
    }
    image_count
}

/// Whether the format stores sRGB-encoded color.
pub fn is_srgb_format(format: i32) -> (r: bool)
    ensures
        r == (format == FORMAT_R8G8B8A8_SRGB || format == FORMAT_B8G8R8A8_SRGB || format == FORMAT_A8B8G8R8_SRGB_PACK32),
{
    format == FORMAT_R8G8B8A8_SRGB || format == FORMAT_B8G8R8A8_SRGB || format == FORMAT_A8B8G8R8_SRGB_PACK32
}

/// How swapchain images are shared between queue families.
#[derive(Clone, Copy, Debug, PartialEq, Eq)]
pub enum SharingMode {
    /// One queue family owns the images.
    Exclusive,
    /// Both listed queue families use the images.
    Concurrent,
}

/// Concurrent sharing when graphics and presentation use different queue
/// families, exclusive otherwise.
pub fn swapchain_sharing_mode(graphics_family: u32, present_family: u32) -> (r: SharingMode)
    ensures
        r == if graphics_family != present_family { SharingMode::Concurrent } else { SharingMode::Exclusive },
{
    if graphics_family != present_family {
        SharingMode::Concurrent
    } else {
        SharingMode::Exclusive
    }
}

/// The queue families to create queues for: graphics, then presentation if
/// it is another family.
pub fn unique_queue_families(graphics_family: u32, present_family: u32) -> (r: Vec<u32>)
    ensures
        r@ == if graphics_family == present_family {
            seq![graphics_family]
        } else {
            seq![graphics_family, present_family]
        },
{
    let mut r = Vec::new();
    r.push(graphics_family);
    if present_family != graphics_family {
        r.push(present_family);
    }
    r
}

} // verus!
