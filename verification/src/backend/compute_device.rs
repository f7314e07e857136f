//! A physical device as first enumerated by the engine, with the choices
//! made from its properties.
use vstd::prelude::*;

use crate::backend::device::PHYSICAL_DEVICE_TYPE_DISCRETE_GPU;
use crate::backend::device::QUEUE_GRAPHICS;
use crate::backend::surface::{
    choose_extent, choose_present_mode, choose_surface_format, preferred_surface_format, Extent2D,
    SurfaceCapabilities, SurfaceFormat, PRESENT_MODE_FIFO, PRESENT_MODE_MAILBOX,
};
use crate::viewport::clamp_spec;

verus! {

/// `VK_MEMORY_HEAP_DEVICE_LOCAL_BIT`.
pub const MEMORY_HEAP_DEVICE_LOCAL: u32 = 0x1;

/// The bytes of `"VK_KHR_swapchain"`.
pub open spec fn swapchain_extension_name() -> Seq<u8> {
    seq![86u8, 75u8, 95u8, 75u8, 72u8, 82u8, 95u8, 115u8, 119u8, 97u8, 112u8, 99u8, 104u8, 97u8, 105u8, 110u8]
}

/// A memory heap of a device: `VkMemoryHeapFlags` and size in bytes.
#[derive(Clone, Copy, Debug, PartialEq, Eq)]
pub struct MemoryHeap {
    pub flags: u32,
    pub size: u64,
}

/// The largest heap whose flags are exactly "device local", in bytes.
pub open spec fn largest_device_local_heap(heaps: Seq<MemoryHeap>) -> u64
    decreases heaps.len(),
{
    if heaps.len() == 0 {
        0
    } else {
        let rest = largest_device_local_heap(heaps.drop_last());
        let h = heaps.last();
        if h.flags == MEMORY_HEAP_DEVICE_LOCAL && rest < h.size {
            h.size
        } else {
            rest
        }
    }
}

/// The dedicated memory is the size of the largest heap whose flags are
/// exactly "device local": no such heap is larger, and it is the size of one
/// of them (or 0 when there is none). The same holds in whole mebibytes.
pub proof fn lemma_largest_device_local_heap(heaps: Seq<MemoryHeap>)
    ensures
        forall|i: int| 0 <= i < heaps.len() && (#[trigger] heaps[i]).flags == MEMORY_HEAP_DEVICE_LOCAL
            ==> heaps[i].size <= largest_device_local_heap(heaps)
            && heaps[i].size / 1024 / 1024 <= largest_device_local_heap(heaps) / 1024 / 1024,
        largest_device_local_heap(heaps) == 0 || exists|i: int| 0 <= i < heaps.len()
            && (#[trigger] heaps[i]).flags == MEMORY_HEAP_DEVICE_LOCAL && heaps[i].size == largest_device_local_heap(heaps),
    decreases heaps.len(),
{
    if heaps.len() > 0 {
        let rest = heaps.drop_last();
        lemma_largest_device_local_heap(rest);
        let top = largest_device_local_heap(heaps);
        assert forall|i: int| 0 <= i < heaps.len() && (#[trigger] heaps[i]).flags == MEMORY_HEAP_DEVICE_LOCAL
            implies heaps[i].size <= top && heaps[i].size / 1024 / 1024 <= top / 1024 / 1024 by {
            if i < heaps.len() - 1 {
                assert(rest[i] == heaps[i]);
            }
            vstd::arithmetic::div_mod::lemma_div_is_ordered(heaps[i].size as int, top as int, 1024);
            vstd::arithmetic::div_mod::lemma_div_is_ordered(heaps[i].size as int / 1024, top as int / 1024, 1024);
        }
        if top != 0 {
            if top == largest_device_local_heap(rest) {
                let k = choose|k: int| 0 <= k < rest.len() && (#[trigger] rest[k]).flags == MEMORY_HEAP_DEVICE_LOCAL && rest[k].size == largest_device_local_heap(rest);
                assert(heaps[k] == rest[k]);
            } else {
                assert(heaps[heaps.len() - 1] == heaps.last());
            }
        }
    }
}

/// The device's dedicated memory in whole mebibytes: the largest heap whose
/// flags are exactly "device local".
pub fn device_local_memory_mb(heaps: &[MemoryHeap]) -> (mb: u64)
    ensures
        mb == largest_device_local_heap(heaps@) / 1024 / 1024,
{
    let mut device_memory: u64 = 0;
    let mut i: usize = 0;
    proof {
        assert(heaps@.take(0) =~= Seq::<MemoryHeap>::empty());
    }
    while i < heaps.len()
        invariant
            i <= heaps@.len(),
            device_memory == largest_device_local_heap(heaps@.take(i as int)),
        decreases heaps.len() - i,
    {
        let heap = heaps[i];
        proof {
            assert(heaps@.take(i + 1).drop_last() =~= heaps@.take(i as int));
            assert(heaps@.take(i + 1).last() == heap);
        }
        if heap.flags == MEMORY_HEAP_DEVICE_LOCAL && device_memory < heap.size {
            device_memory = heap.size;
        }
        i = i + 1;
    }
    proof {
        assert(heaps@.take(i as int) =~= heaps@);
    }
    device_memory / 1024 / 1024
}

/// A physical device and what it reports about itself and the window's
/// surface. Extension and device names are their bytes without the
/// terminating zero.
#[derive(Clone, Debug)]
pub struct ComputeDevice {
    /// The raw `VkPhysicalDevice` handle.
    pub pdevice: u64,
    name: Vec<u8>,
    dtype: i32,
    memory: u32,
    queue_flags: Vec<u32>,
    supported_extensions: Vec<Vec<u8>>,
    surface_capabilities: SurfaceCapabilities,
    surface_formats: Vec<SurfaceFormat>,
    present_modes: Vec<i32>,
}

/// Mathematical state of a `ComputeDevice`.
pub struct ComputeDeviceView {
    pub pdevice: u64,
    pub name: Seq<u8>,
    pub dtype: i32,
    pub memory: u32,
    pub queue_flags: Seq<u32>,
    pub extensions: Seq<Seq<u8>>,
    pub capabilities: SurfaceCapabilities,
    pub formats: Seq<SurfaceFormat>,
    pub present_modes: Seq<i32>,
}

impl View for ComputeDevice {
    type V = ComputeDeviceView;

    closed spec fn view(&self) -> ComputeDeviceView {
        ComputeDeviceView {
            pdevice: self.pdevice,
            name: self.name@,
            dtype: self.dtype,
            memory: self.memory,
            queue_flags: self.queue_flags@,
            extensions: self.supported_extensions@.map_values(|e: Vec<u8>| e@),
            capabilities: self.surface_capabilities,
            formats: self.surface_formats@,
            present_modes: self.present_modes@,
        }
    }
}

/// The first index whose queue flags include graphics.
pub open spec fn first_graphics_family(flags: Seq<u32>) -> Option<int>
    decreases flags.len(),
{
    if flags.len() == 0 {
        None
    } else if flags[0] & QUEUE_GRAPHICS == QUEUE_GRAPHICS {
        Some(0)
    } else {
        match first_graphics_family(flags.drop_first()) {
            Some(i) => Some(i + 1),
            None => None,
        }
    }
}

/// A device the engine can use: a discrete GPU with the swapchain
/// extension, some surface format and present mode, and a graphics queue.
pub open spec fn usable_device(d: ComputeDeviceView) -> bool {
    &&& d.dtype == PHYSICAL_DEVICE_TYPE_DISCRETE_GPU
    &&& d.extensions.contains(swapchain_extension_name())
    &&& d.formats.len() > 0
    &&& d.present_modes.len() > 0
    &&& first_graphics_family(d.queue_flags) is Some
}

proof fn lemma_first_graphics_step(flags: Seq<u32>, i: int)
    requires
        0 <= i < flags.len(),
        forall|j: int| 0 <= j < i ==> flags[j] & QUEUE_GRAPHICS != QUEUE_GRAPHICS,
    ensures
        flags[i] & QUEUE_GRAPHICS == QUEUE_GRAPHICS ==> first_graphics_family(flags) == Some(i),
    decreases i,
{
    if i > 0 {
        let rest = flags.drop_first();
        assert forall|j: int| 0 <= j < i - 1 implies rest[j] & QUEUE_GRAPHICS != QUEUE_GRAPHICS by {
            assert(rest[j] == flags[j + 1]);
        }
        lemma_first_graphics_step(rest, i - 1);
    }
}

proof fn lemma_first_graphics_none(flags: Seq<u32>)
    requires
        forall|j: int| 0 <= j < flags.len() ==> flags[j] & QUEUE_GRAPHICS != QUEUE_GRAPHICS,
    ensures
        first_graphics_family(flags) is None,
    decreases flags.len(),
{
    if flags.len() > 0 {
        let rest = flags.drop_first();
        assert forall|j: int| 0 <= j < rest.len() implies rest[j] & QUEUE_GRAPHICS != QUEUE_GRAPHICS by {
            assert(rest[j] == flags[j + 1]);
        }
        lemma_first_graphics_none(rest);
    }
}

fn is_swapchain_extension(name: &Vec<u8>) -> (r: bool)
    ensures
        r == (name@ == swapchain_extension_name()),
{
    let expected: [u8; 16] = [86, 75, 95, 75, 72, 82, 95, 115, 119, 97, 112, 99, 104, 97, 105, 110];
    proof {
        assert(expected@ =~= swapchain_extension_name());
    }
    if name.len() != 16 {
        return false;
    }
    let mut i: usize = 0;
    while i < 16
        invariant
            name@.len() == 16,
            expected@ == swapchain_extension_name(),
            i <= 16,
            forall|j: int| 0 <= j < i ==> name@[j] == expected@[j],
        decreases 16 - i,
    {
        if name[i] != expected[i] {
            return false;
        }
        i = i + 1;
    }
    proof {
        assert(name@ =~= swapchain_extension_name());
    }
    true
}

/// `d` is device `i` of `devices`, the first usable one, and `q` its first
/// graphics queue family.
pub open spec fn chosen_device(devices: Seq<ComputeDevice>, d: ComputeDeviceView, q: u32, i: int) -> bool {
    &&& 0 <= i < devices.len()
    &&& d == devices[i]@
    &&& usable_device(d)
    &&& first_graphics_family(d.queue_flags) == Some(q as int)
    &&& forall|j: int| 0 <= j < i ==> !usable_device(#[trigger] devices[j]@)
}

impl ComputeDevice {
    pub fn new(
        pdevice: u64,
        name: Vec<u8>,
        dtype: i32,
        memory: u32,
        queue_flags: Vec<u32>,
        supported_extensions: Vec<Vec<u8>>,
        surface_capabilities: SurfaceCapabilities,
        surface_formats: Vec<SurfaceFormat>,
        present_modes: Vec<i32>,
    ) -> (d: Self)
        ensures
            d@.pdevice == pdevice,
            d@.name == name@,
            d@.dtype == dtype,
            d@.memory == memory,
            d@.queue_flags == queue_flags@,
            d@.extensions == supported_extensions@.map_values(|e: Vec<u8>| e@),
            d@.capabilities == surface_capabilities,
            d@.formats == surface_formats@,
            d@.present_modes == present_modes@,
    {
        ComputeDevice {
            pdevice,
            name,
            dtype,
            memory,
            queue_flags,
            supported_extensions,
            surface_capabilities,
            surface_formats,
            present_modes,
        }
    }

    /// The device name's bytes.
    pub fn name(&self) -> (r: &Vec<u8>)
        ensures
            r@ == self@.name,
    {
        &self.name
    }

    /// `VkPhysicalDeviceType`.
    pub fn device_type(&self) -> (r: i32)
        ensures
            r == self@.dtype,
    {
        self.dtype
    }

    /// Dedicated memory in mebibytes.
    pub fn memory(&self) -> (r: u32)
        ensures
            r == self@.memory,
    {
        self.memory
    }

    fn supports_swapchain(&self) -> (r: bool)
        ensures
            r == self@.extensions.contains(swapchain_extension_name()),
    {
        let mut i: usize = 0;
        while i < self.supported_extensions.len()
            invariant
                i <= self.supported_extensions@.len(),
                forall|j: int| 0 <= j < i ==> self.supported_extensions@[j]@ != swapchain_extension_name(),
            decreases self.supported_extensions.len() - i,
        {
            if is_swapchain_extension(&self.supported_extensions[i]) {
                proof {
                    assert(self@.extensions[i as int] == swapchain_extension_name());
                }
                return true;
            }
            i = i + 1;
        }
        proof {
            if self@.extensions.contains(swapchain_extension_name()) {
                let j = choose|j: int| 0 <= j < self@.extensions.len() && self@.extensions[j] == swapchain_extension_name();
                assert(self.supported_extensions@[j]@ == swapchain_extension_name());
            }
        }
        false
    }

    fn graphics_family(&self) -> (r: Option<u32>)
        requires
            self@.queue_flags.len() <= u32::MAX,
        ensures
            r matches Some(q) ==> first_graphics_family(self@.queue_flags) == Some(q as int),
            r is None ==> first_graphics_family(self@.queue_flags) is None,
    {
        let count = self.queue_flags.len();
        let mut index: usize = 0;
        while index < count
            invariant
                count == self@.queue_flags.len(),
                count <= u32::MAX,
                index <= count,
                forall|j: int| 0 <= j < index ==> self@.queue_flags[j] & QUEUE_GRAPHICS != QUEUE_GRAPHICS,
            decreases count - index,
        {
            if self.queue_flags[index] & QUEUE_GRAPHICS == QUEUE_GRAPHICS {
                proof {
                    lemma_first_graphics_step(self@.queue_flags, index as int);
                }
                return Some(index as u32);
            }
            index = index + 1;
        }
        proof {
            lemma_first_graphics_none(self@.queue_flags);
        }
        None
    }

    /// The first usable device and the index of its first graphics queue
    /// family.
    pub fn select_device_and_queue(devices: Vec<ComputeDevice>) -> (r: Option<(ComputeDevice, u32)>)
        requires
            forall|j: int| 0 <= j < devices@.len() ==> (#[trigger] devices@[j])@.queue_flags.len() <= u32::MAX,
        ensures
            r matches Some((d, q)) ==> exists|i: int| #[trigger] chosen_device(devices@, d@, q, i),
            r is None ==> forall|j: int| 0 <= j < devices@.len() ==> !usable_device(#[trigger] devices@[j]@),
    {
        let ghost original = devices@;
        let mut pool = devices;
        let mut i: usize = 0;
        while i < pool.len()
            invariant
                pool@ == original,
                devices@ == original,
                forall|j: int| 0 <= j < pool@.len() ==> (#[trigger] pool@[j])@.queue_flags.len() <= u32::MAX,
                i <= pool@.len(),
                forall|j: int| 0 <= j < i ==> !usable_device(#[trigger] pool@[j]@),
            decreases pool.len() - i,
        {
            let d = &pool[i];
            if d.dtype == PHYSICAL_DEVICE_TYPE_DISCRETE_GPU && d.supports_swapchain()
                && d.surface_formats.len() > 0 && d.present_modes.len() > 0 {
                match d.graphics_family() {
                    Some(q) => {
                        proof {
                            assert(usable_device(original[i as int]@));
                        }
                        let chosen = pool.remove(i);
                        proof {
                            assert(chosen == original[i as int]);
                            assert(usable_device(chosen@));
                            assert(first_graphics_family(chosen@.queue_flags) == Some(q as int));
                            assert(chosen_device(original, chosen@, q, i as int));
                            assert(forall|j: int| 0 <= j < i ==> !usable_device(#[trigger] original[j]@));
                        }
                        proof {
                            assert(chosen_device(devices@, chosen@, q, i as int));
                        }
                        let result = Some((chosen, q));
                        proof {
                            assert(result matches Some((d, qq)) && d@ == chosen@ && qq == q);
                        }
                        return result;
                    },
                    None => {},
                }
            }
            i = i + 1;
        }
        None
    }

    /// The first queue family that can present to the surface;
    /// `supports_surface[i]` tells whether family `i` can.
    pub fn select_present_queue(&self, supports_surface: &[bool]) -> (r: Option<u32>)
        requires
            supports_surface@.len() == self@.queue_flags.len(),
            self@.queue_flags.len() <= u32::MAX,
        ensures
            r matches Some(q) ==> q < supports_surface@.len() && supports_surface@[q as int]
                && forall|j: int| 0 <= j < q ==> !supports_surface@[j],
            r is None ==> forall|j: int| 0 <= j < supports_surface@.len() ==> !supports_surface@[j],
    {
        let count = self.queue_flags.len();
        let mut index: usize = 0;
        while index < count
            invariant
                count == supports_surface@.len(),
                count <= u32::MAX,
                index <= count,
                forall|j: int| 0 <= j < index ==> !supports_surface@[j],
            decreases count - index,
        {
            if supports_surface[index] {
                return Some(index as u32);
            }
            index = index + 1;
        }
        None
    }

    /// The preferred surface format if offered, else the first offered.
    pub fn select_surface_format(&self) -> (r: SurfaceFormat)
        requires
            self@.formats.len() > 0,
        ensures
            r == if self@.formats.contains(preferred_surface_format()) {
                preferred_surface_format()
            } else {
                self@.formats[0]
            },
    {
        choose_surface_format(self.surface_formats.as_slice())
    }

    /// Mailbox if offered, else FIFO.
    pub fn select_present_mode(&self) -> (r: i32)
        ensures
            r == if self@.present_modes.contains(PRESENT_MODE_MAILBOX) {
                PRESENT_MODE_MAILBOX
            } else {
                PRESENT_MODE_FIFO
            },
    {
        choose_present_mode(self.present_modes.as_slice())
    }

    /// The framebuffer size clamped into what the surface allows.
    pub fn select_image_extent(&self, framebuffer_size: (u32, u32)) -> (r: Extent2D)
        requires
            self@.capabilities.min_image_extent.width <= self@.capabilities.max_image_extent.width,
            self@.capabilities.min_image_extent.height <= self@.capabilities.max_image_extent.height,
        ensures
            r.width == clamp_spec(framebuffer_size.0 as int, self@.capabilities.min_image_extent.width as int, self@.capabilities.max_image_extent.width as int),
            r.height == clamp_spec(framebuffer_size.1 as int, self@.capabilities.min_image_extent.height as int, self@.capabilities.max_image_extent.height as int),
    {
        choose_extent(framebuffer_size.0, framebuffer_size.1, &self.surface_capabilities)
    }

    /// One image more than the minimum when the maximum leaves room.
    pub fn select_swapchain_image_count(&self) -> (r: u32)
        ensures
            r == if self@.capabilities.max_image_count > self@.capabilities.min_image_count {
                self@.capabilities.min_image_count + 1
            } else {
                self@.capabilities.min_image_count as int
            },
    {
        let mut image_count = self.surface_capabilities.min_image_count;
        if self.surface_capabilities.max_image_count > image_count {
            image_count = image_count + 1;
        }
        image_count
    }

    /// `VkSurfaceTransformFlagsKHR` of the surface's current transform.
    pub fn get_current_transform(&self) -> (r: u32)
        ensures
            r == self@.capabilities.current_transform,
    {
        self.surface_capabilities.current_transform
    }
}

} // verus!
