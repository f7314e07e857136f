use benzene::backend::compute_device::{device_local_memory_mb, ComputeDevice, MemoryHeap, MEMORY_HEAP_DEVICE_LOCAL};
use benzene::backend::device::{
    find_queue_families, select_physical_device, DeviceCandidate, QueueFamilies, QueueFamilyInfo,
    PHYSICAL_DEVICE_TYPE_DISCRETE_GPU, QUEUE_GRAPHICS,
};
use benzene::backend::frames::{judge_acquire, judge_present, AcquireResult, FrameCycle, PresentResult};
use benzene::backend::memory::{
    find_memory_type_index, select_depth_format, MemoryProperties, FORMAT_D24_UNORM_S8_UINT,
    FORMAT_D32_SFLOAT, FORMAT_D32_SFLOAT_S8_UINT, FORMAT_FEATURE_DEPTH_STENCIL_ATTACHMENT,
    MEMORY_PROPERTY_DEVICE_LOCAL, MEMORY_PROPERTY_HOST_COHERENT, MEMORY_PROPERTY_HOST_VISIBLE,
};
use benzene::backend::surface::{
    choose_extent, choose_present_mode, choose_surface_format, is_srgb_format,
    swapchain_image_count, swapchain_sharing_mode, unique_queue_families, Extent2D, SharingMode,
    SurfaceCapabilities, SurfaceFormat, COLOR_SPACE_SRGB_NONLINEAR, FORMAT_A8B8G8R8_SRGB_PACK32,
    FORMAT_B8G8R8A8_SRGB, FORMAT_R8G8B8A8_SRGB, PRESENT_MODE_FIFO, PRESENT_MODE_MAILBOX,
};
use benzene::constants::MAX_FRAMES_IN_FLIGHT;
use benzene::error::{EngineError, VK_ERROR_OUT_OF_DATE_KHR};

const VK_ERROR_DEVICE_LOST: i32 = -4;
const FORMAT_B8G8R8A8_UNORM: i32 = 44;
const PRESENT_MODE_IMMEDIATE: i32 = 0;

fn caps(min_count: u32, max_count: u32) -> SurfaceCapabilities {
    SurfaceCapabilities {
        min_image_count: min_count,
        max_image_count: max_count,
        min_image_extent: Extent2D { width: 1, height: 1 },
        max_image_extent: Extent2D { width: 4096, height: 2048 },
        current_transform: 1,
    }
}

fn candidate(formats: usize, modes: usize, device_type: i32) -> DeviceCandidate {
    DeviceCandidate {
        queue_families: Some(QueueFamilies { graphics: 0, present: 1 }),
        swapchain_supported: true,
        surface_format_count: formats,
        present_mode_count: modes,
        device_type,
    }
}

#[test]
fn acquire_results_are_judged() {
    assert_eq!(judge_acquire(AcquireResult::Acquired { image_index: 2, suboptimal: false }), Ok(2));
    assert_eq!(judge_acquire(AcquireResult::Acquired { image_index: 2, suboptimal: true }), Err(EngineError::SwapchainOutOfDate));
    assert_eq!(judge_acquire(AcquireResult::Failed(VK_ERROR_OUT_OF_DATE_KHR)), Err(EngineError::SwapchainOutOfDate));
    assert_eq!(
        judge_acquire(AcquireResult::Failed(VK_ERROR_DEVICE_LOST)),
        Err(EngineError::Vulkan { operation: "acquiring swapchain image", result: VK_ERROR_DEVICE_LOST })
    );
}

#[test]
fn present_results_are_judged() {
    assert_eq!(judge_present(PresentResult::Presented { suboptimal: false }), Ok(()));
    assert_eq!(judge_present(PresentResult::Presented { suboptimal: true }), Err(EngineError::SwapchainOutOfDate));
    assert_eq!(judge_present(PresentResult::Failed(VK_ERROR_OUT_OF_DATE_KHR)), Err(EngineError::SwapchainOutOfDate));
    assert_eq!(
        judge_present(PresentResult::Failed(VK_ERROR_DEVICE_LOST)),
        Err(EngineError::vk("presenting swapchain image", VK_ERROR_DEVICE_LOST))
    );
}

#[test]
fn frame_cycle_wraps_around_the_frames_in_flight() {
    let mut cycle = FrameCycle::new(MAX_FRAMES_IN_FLIGHT);
    assert_eq!(MAX_FRAMES_IN_FLIGHT, 2);
    assert_eq!(cycle.frames_in_flight(), 2);
    assert_eq!(cycle.begin_frame(), Ok(0));
    assert_eq!(cycle.end_frame(PresentResult::Presented { suboptimal: false }), Ok(()));
    assert_eq!(cycle.current_frame(), 1);
    assert_eq!(cycle.end_frame(PresentResult::Presented { suboptimal: false }), Ok(()));
    assert_eq!(cycle.current_frame(), 0);
}

#[test]
fn failed_presents_keep_the_frame_slot() {
    let mut cycle = FrameCycle::new(3);
    assert_eq!(cycle.end_frame(PresentResult::Failed(VK_ERROR_OUT_OF_DATE_KHR)), Err(EngineError::SwapchainOutOfDate));
    assert_eq!(cycle.current_frame(), 0);
}

#[test]
fn zero_sized_windows_stop_frames_until_rebuilt() {
    let mut cycle = FrameCycle::new(2);
    assert!(!cycle.window_resized(0, 600));
    assert!(cycle.is_zero_sized_window());
    assert_eq!(cycle.begin_frame(), Err(EngineError::ZeroSizedWindow));
    assert!(cycle.window_resized(800, 600));
    assert!(cycle.is_zero_sized_window());
    cycle.swapchain_rebuilt();
    assert!(!cycle.is_zero_sized_window());
    assert_eq!(cycle.begin_frame(), Ok(0));
}

#[test]
fn preferred_surface_format_wins() {
    let unorm = SurfaceFormat { format: FORMAT_B8G8R8A8_UNORM, color_space: COLOR_SPACE_SRGB_NONLINEAR };
    let srgb = SurfaceFormat { format: FORMAT_B8G8R8A8_SRGB, color_space: COLOR_SPACE_SRGB_NONLINEAR };
    assert_eq!(choose_surface_format(&[unorm, srgb]), srgb);
    assert_eq!(choose_surface_format(&[unorm]), unorm);
    let other_space = SurfaceFormat { format: FORMAT_B8G8R8A8_SRGB, color_space: 1 };
    assert_eq!(choose_surface_format(&[other_space, unorm]), other_space);
}

#[test]
fn mailbox_is_preferred_over_fifo() {
    assert_eq!(choose_present_mode(&[PRESENT_MODE_FIFO, PRESENT_MODE_MAILBOX]), PRESENT_MODE_MAILBOX);
    assert_eq!(choose_present_mode(&[PRESENT_MODE_IMMEDIATE, PRESENT_MODE_FIFO]), PRESENT_MODE_FIFO);
    assert_eq!(choose_present_mode(&[]), PRESENT_MODE_FIFO);
}

#[test]
fn extent_is_clamped_into_the_surface_limits() {
    let c = caps(2, 3);
    assert_eq!(choose_extent(1000, 600, &c), Extent2D { width: 1000, height: 600 });
    assert_eq!(choose_extent(5000, 0, &c), Extent2D { width: 4096, height: 1 });
    assert_eq!(choose_extent(0, 3000, &c), Extent2D { width: 1, height: 2048 });
}

#[test]
fn image_count_is_one_above_the_minimum_within_the_maximum() {
    assert_eq!(swapchain_image_count(&caps(2, 8)), 3);
    assert_eq!(swapchain_image_count(&caps(2, 0)), 3);
    assert_eq!(swapchain_image_count(&caps(3, 3)), 3);
}

#[test]
fn srgb_formats_are_recognised() {
    assert!(is_srgb_format(FORMAT_R8G8B8A8_SRGB));
    assert!(is_srgb_format(FORMAT_B8G8R8A8_SRGB));
    assert!(is_srgb_format(FORMAT_A8B8G8R8_SRGB_PACK32));
    assert!(!is_srgb_format(FORMAT_B8G8R8A8_UNORM));
}

#[test]
fn queue_sharing_follows_the_families() {
    assert_eq!(swapchain_sharing_mode(0, 0), SharingMode::Exclusive);
    assert_eq!(swapchain_sharing_mode(0, 2), SharingMode::Concurrent);
    assert_eq!(unique_queue_families(1, 1), vec![1]);
    assert_eq!(unique_queue_families(1, 3), vec![1, 3]);
}

#[test]
fn queue_families_are_the_last_suitable_ones() {
    let families = [
        QueueFamilyInfo { queue_flags: QUEUE_GRAPHICS, supports_present: true },
        QueueFamilyInfo { queue_flags: 0x2, supports_present: true },
        QueueFamilyInfo { queue_flags: QUEUE_GRAPHICS | 0x2, supports_present: false },
    ];
    assert_eq!(find_queue_families(&families), Some(QueueFamilies { graphics: 2, present: 1 }));
    let no_present = [QueueFamilyInfo { queue_flags: QUEUE_GRAPHICS, supports_present: false }];
    assert_eq!(find_queue_families(&no_present), None);
    assert_eq!(find_queue_families(&[]), None);
}

#[test]
fn the_best_scoring_device_is_selected() {
    let integrated = candidate(4, 3, 1);
    let discrete = candidate(1, 1, PHYSICAL_DEVICE_TYPE_DISCRETE_GPU);
    let r = select_physical_device(&[integrated, discrete]);
    assert_eq!(r, Ok((1, QueueFamilies { graphics: 0, present: 1 })));
    let tie = select_physical_device(&[candidate(2, 2, 1), candidate(3, 1, 1)]);
    assert_eq!(tie.map(|(i, _)| i), Ok(0));
}

#[test]
fn ineligible_devices_are_skipped() {
    let mut no_swapchain = candidate(9, 9, PHYSICAL_DEVICE_TYPE_DISCRETE_GPU);
    no_swapchain.swapchain_supported = false;
    let mut no_queues = candidate(9, 9, PHYSICAL_DEVICE_TYPE_DISCRETE_GPU);
    no_queues.queue_families = None;
    let no_formats = candidate(0, 2, PHYSICAL_DEVICE_TYPE_DISCRETE_GPU);
    let no_modes = candidate(2, 0, PHYSICAL_DEVICE_TYPE_DISCRETE_GPU);
    assert_eq!(select_physical_device(&[no_swapchain, no_queues, no_formats, no_modes]), Err(EngineError::NoCompatibleDevice));
    assert_eq!(select_physical_device(&[]), Err(EngineError::NoCompatibleDevice));
    let ok = candidate(1, 1, 1);
    assert_eq!(select_physical_device(&[no_swapchain, ok]).map(|(i, _)| i), Ok(1));
}

#[test]
fn memory_type_is_the_first_allowed_one_with_the_properties() {
    let props = MemoryProperties {
        memory_type_count: 3,
        memory_type_flags: vec![
            MEMORY_PROPERTY_DEVICE_LOCAL,
            MEMORY_PROPERTY_HOST_VISIBLE,
            MEMORY_PROPERTY_HOST_VISIBLE | MEMORY_PROPERTY_HOST_COHERENT,
        ],
    };
    let host = MEMORY_PROPERTY_HOST_VISIBLE | MEMORY_PROPERTY_HOST_COHERENT;
    assert_eq!(find_memory_type_index(&props, 0b111, host), Some(2));
    assert_eq!(find_memory_type_index(&props, 0b111, MEMORY_PROPERTY_HOST_VISIBLE), Some(1));
    assert_eq!(find_memory_type_index(&props, 0b001, MEMORY_PROPERTY_HOST_VISIBLE), None);
    assert_eq!(find_memory_type_index(&props, 0b111, MEMORY_PROPERTY_DEVICE_LOCAL), Some(0));
    assert_eq!(find_memory_type_index(&props, 0b110, MEMORY_PROPERTY_DEVICE_LOCAL), None);
}

#[test]
fn depth_format_is_the_first_supported_candidate() {
    let yes = FORMAT_FEATURE_DEPTH_STENCIL_ATTACHMENT;
    assert_eq!(select_depth_format(&[yes, yes, yes]), Ok(FORMAT_D32_SFLOAT));
    assert_eq!(select_depth_format(&[0, yes, yes]), Ok(FORMAT_D32_SFLOAT_S8_UINT));
    assert_eq!(select_depth_format(&[0, 0, yes | 0x1]), Ok(FORMAT_D24_UNORM_S8_UINT));
    assert_eq!(
        select_depth_format(&[0, 0x100, 0]),
        Err(EngineError::Message(String::from("failed to find supported depth format")))
    );
}

fn device(dtype: i32, extensions: Vec<Vec<u8>>, queue_flags: Vec<u32>, formats: usize, modes: Vec<i32>) -> ComputeDevice {
    let mut surface_formats = Vec::new();
    let mut i: usize = 0;
    while i < formats {
        surface_formats.push(SurfaceFormat { format: FORMAT_B8G8R8A8_UNORM, color_space: COLOR_SPACE_SRGB_NONLINEAR });
        i += 1;
    }
    ComputeDevice::new(7, b"gpu".to_vec(), dtype, 4096, queue_flags, extensions, caps(2, 8), surface_formats, modes)
}

#[test]
fn the_first_usable_compute_device_is_selected() {
    let swapchain = b"VK_KHR_swapchain".to_vec();
    let integrated = device(1, vec![swapchain.clone()], vec![QUEUE_GRAPHICS], 1, vec![PRESENT_MODE_FIFO]);
    let no_ext = device(PHYSICAL_DEVICE_TYPE_DISCRETE_GPU, vec![b"VK_KHR_other".to_vec()], vec![QUEUE_GRAPHICS], 1, vec![PRESENT_MODE_FIFO]);
    let good = device(PHYSICAL_DEVICE_TYPE_DISCRETE_GPU, vec![b"VK_EXT_x".to_vec(), swapchain.clone()], vec![0x2, QUEUE_GRAPHICS | 0x2], 1, vec![PRESENT_MODE_MAILBOX]);
    let (chosen, queue) = ComputeDevice::select_device_and_queue(vec![integrated, no_ext, good]).unwrap();
    assert_eq!(queue, 1);
    assert_eq!(chosen.device_type(), PHYSICAL_DEVICE_TYPE_DISCRETE_GPU);
    assert_eq!(chosen.name(), &b"gpu".to_vec());
    assert_eq!(chosen.memory(), 4096);
    assert_eq!(chosen.select_present_mode(), PRESENT_MODE_MAILBOX);
    assert_eq!(chosen.select_surface_format().format, FORMAT_B8G8R8A8_UNORM);
    assert_eq!(chosen.select_swapchain_image_count(), 3);
    assert_eq!(chosen.get_current_transform(), 1);
    assert_eq!(chosen.select_image_extent((10000, 10)), Extent2D { width: 4096, height: 10 });
    assert_eq!(chosen.select_present_queue(&[false, true]), Some(1));
    assert_eq!(chosen.select_present_queue(&[false, false]), None);
}

#[test]
fn no_compute_device_without_graphics_queue() {
    let swapchain = b"VK_KHR_swapchain".to_vec();
    let no_graphics = device(PHYSICAL_DEVICE_TYPE_DISCRETE_GPU, vec![swapchain.clone()], vec![0x2], 1, vec![PRESENT_MODE_FIFO]);
    let no_modes = device(PHYSICAL_DEVICE_TYPE_DISCRETE_GPU, vec![swapchain], vec![QUEUE_GRAPHICS], 1, vec![]);
    assert!(ComputeDevice::select_device_and_queue(vec![no_graphics, no_modes]).is_none());
}

#[test]
fn image_count_stays_at_the_minimum_when_the_maximum_is_reached() {
    let d = ComputeDevice::new(1, vec![], 2, 0, vec![], vec![], caps(3, 3), vec![], vec![]);
    assert_eq!(d.select_swapchain_image_count(), 3);
    assert_eq!(d.select_present_mode(), PRESENT_MODE_FIFO);
}

#[test]
fn device_memory_is_the_largest_device_local_heap() {
    let heaps = [
        MemoryHeap { flags: MEMORY_HEAP_DEVICE_LOCAL, size: 256 * 1024 * 1024 },
        MemoryHeap { flags: 0, size: 16 * 1024 * 1024 * 1024 },
        MemoryHeap { flags: MEMORY_HEAP_DEVICE_LOCAL, size: 8 * 1024 * 1024 * 1024 + 5 },
        MemoryHeap { flags: MEMORY_HEAP_DEVICE_LOCAL | 0x2, size: 32 * 1024 * 1024 * 1024 },
    ];
    assert_eq!(device_local_memory_mb(&heaps), 8192);
    assert_eq!(device_local_memory_mb(&[]), 0);
}
