//! The frame cycle of the renderer: which frame slot is recorded next,
//! whether the window can be drawn into, and how the results of acquiring
//! and presenting swapchain images are judged.
use vstd::prelude::*;

use crate::error::{EngineError, VK_ERROR_OUT_OF_DATE_KHR};

verus! {

/// The result of `vkAcquireNextImageKHR`.
#[derive(Clone, Copy, Debug, PartialEq, Eq)]
pub enum AcquireResult {
    /// An image was acquired; `suboptimal` tells whether the swapchain no
    /// longer matches the surface exactly.
    Acquired { image_index: u32, suboptimal: bool },
    /// The call failed with this `VkResult`.
    Failed(i32),
}

/// The result of `vkQueuePresentKHR`.
#[derive(Clone, Copy, Debug, PartialEq, Eq)]
pub enum PresentResult {
    /// The image was queued; `suboptimal` as for acquiring.
    Presented { suboptimal: bool },
    /// The call failed with this `VkResult`.
    Failed(i32),
}

/// What an acquire result means for the frame: the image to render into,
/// or the error the frame ends with.
pub open spec fn acquire_outcome(result: AcquireResult) -> Result<usize, EngineError> {
    match result {
        AcquireResult::Acquired { image_index, suboptimal } => if suboptimal {
            Err(EngineError::SwapchainOutOfDate)
        } else {
            Ok(image_index as usize)
        },
        AcquireResult::Failed(code) => if code == VK_ERROR_OUT_OF_DATE_KHR {
            Err(EngineError::SwapchainOutOfDate)
        } else {
            Err(EngineError::Vulkan { operation: "acquiring swapchain image", result: code })
        },
    }
}

/// What a present result means for the frame.
pub open spec fn present_outcome(result: PresentResult) -> Result<(), EngineError> {
    match result {
        PresentResult::Presented { suboptimal } => if suboptimal {
            Err(EngineError::SwapchainOutOfDate)
        } else {
            Ok(())
        },
        PresentResult::Failed(code) => if code == VK_ERROR_OUT_OF_DATE_KHR {
            Err(EngineError::SwapchainOutOfDate)
        } else {
            Err(EngineError::Vulkan { operation: "presenting swapchain image", result: code })
        },
    }
}

/// Judges the result of acquiring a swapchain image.
pub fn judge_acquire(result: AcquireResult) -> (r: Result<usize, EngineError>)
    ensures
        r == acquire_outcome(result),
{
    match result {
        AcquireResult::Acquired { image_index, suboptimal } => {
            if suboptimal {
                Err(EngineError::SwapchainOutOfDate)
            } else {
                Ok(image_index as usize)
            }
        },
        AcquireResult::Failed(code) => {
            if code == VK_ERROR_OUT_OF_DATE_KHR {
                Err(EngineError::SwapchainOutOfDate)
            } else {
                Err(EngineError::vk("acquiring swapchain image", code))
            }
        },
    }
}

/// Judges the result of presenting a swapchain image.
pub fn judge_present(result: PresentResult) -> (r: Result<(), EngineError>)
    ensures
        r == present_outcome(result),
{
    match result {
        PresentResult::Presented { suboptimal } => {
            if suboptimal {
                Err(EngineError::SwapchainOutOfDate)
            } else {
                Ok(())
            }
        },
        PresentResult::Failed(code) => {
            if code == VK_ERROR_OUT_OF_DATE_KHR {
                Err(EngineError::SwapchainOutOfDate)
            } else {
                Err(EngineError::vk("presenting swapchain image", code))
            }
        },
    }
}

/// The slot after `current` among `count` frame slots.
pub open spec fn next_slot(current: nat, count: nat) -> nat {
    (current + 1) % count
}

/// The frame slots are visited in turn: a successful frame moves to the next
/// slot, and after the last slot comes slot 0.
pub proof fn lemma_next_slot(current: nat, count: nat)
    requires
        current < count,
    ensures
        next_slot(current, count) < count,
        current + 1 < count ==> next_slot(current, count) == current + 1,
        current + 1 == count ==> next_slot(current, count) == 0,
{
    if current + 1 < count {
        vstd::arithmetic::div_mod::lemma_small_mod((current + 1) as nat, count);
    } else {
        vstd::arithmetic::div_mod::lemma_mod_self_0(count as int);
    }
}

/// The frames-in-flight bookkeeping of a renderer.
#[derive(Clone, Copy, Debug, PartialEq, Eq)]
pub struct FrameCycle {
    current_frame: usize,
    frames_in_flight: usize,
    zero_sized: bool,
}

impl FrameCycle {
    pub closed spec fn current(self) -> nat {
        self.current_frame as nat
    }

    pub closed spec fn count(self) -> nat {
        self.frames_in_flight as nat
    }

    pub closed spec fn is_zero_sized(self) -> bool {
        self.zero_sized
    }

    /// The current slot is one of the slots.
    pub open spec fn wf(self) -> bool {
        self.current() < self.count()
    }

    /// A cycle over `frames_in_flight` slots starting at slot 0, for a
    /// window that has an area.
    pub fn new(frames_in_flight: usize) -> (c: Self)
        requires
            frames_in_flight > 0,
        ensures
            c.wf(),
            c.current() == 0,
            c.count() == frames_in_flight,
            !c.is_zero_sized(),
    {
        FrameCycle { current_frame: 0, frames_in_flight, zero_sized: false }
    }

    /// The slot the next frame records into.
    pub fn current_frame(&self) -> (r: usize)
        ensures
            r == self.current(),
    {
        self.current_frame
    }

    pub fn frames_in_flight(&self) -> (r: usize)
        ensures
            r == self.count(),
    {
        self.frames_in_flight
    }

    pub fn is_zero_sized_window(&self) -> (r: bool)
        ensures
            r == self.is_zero_sized(),
    {
        self.zero_sized
    }

    /// Takes note of the window's new size; returns whether the swapchain
    /// is to be rebuilt (the window has an area). A zero-sized window stops
    /// rendering until a rebuild succeeds.
    pub fn window_resized(&mut self, width: u32, height: u32) -> (rebuild: bool)
        ensures
            rebuild == (width != 0 && height != 0),
            !rebuild ==> final(self).is_zero_sized(),
            rebuild ==> final(self).is_zero_sized() == old(self).is_zero_sized(),
            final(self).current() == old(self).current(),
            final(self).count() == old(self).count(),
    {
        if width == 0 || height == 0 {
            self.zero_sized = true;
            return false;
        }
        true
    }

    /// The swapchain was rebuilt for a window with an area.
    pub fn swapchain_rebuilt(&mut self)
        ensures
            !final(self).is_zero_sized(),
            final(self).current() == old(self).current(),
            final(self).count() == old(self).count(),
    {
        self.zero_sized = false;
    }

    /// Starts a frame: refused for a zero-sized window, else the slot to
    /// record into.
    pub fn begin_frame(&self) -> (r: Result<usize, EngineError>)
        ensures
            r == if self.is_zero_sized() {
                Err(EngineError::ZeroSizedWindow)
            } else {
                Ok(self.current() as usize)
            },
    {
        if self.zero_sized {
            return Err(EngineError::ZeroSizedWindow);
        }
        Ok(self.current_frame)
    }

    /// Ends a frame with the result of presenting it: on success the cycle
    /// moves to the next slot; on failure it stays.
    pub fn end_frame(&mut self, presented: PresentResult) -> (r: Result<(), EngineError>)
        requires
            old(self).wf(),
        ensures
            final(self).wf(),
            r == present_outcome(presented),
            final(self).count() == old(self).count(),
            final(self).is_zero_sized() == old(self).is_zero_sized(),
            final(self).current() == if r is Ok {
                next_slot(old(self).current(), old(self).count())
            } else {
                old(self).current()
            },
    {
        let r = judge_present(presented);
        if r.is_ok() {
            self.current_frame = (self.current_frame + 1) % self.frames_in_flight;
        }
        r
    }
}

} // verus!
