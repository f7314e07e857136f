use benzene::error::EngineError;
use benzene::frame_state::{SceneFrameState, NANOS_PER_SECOND};
use benzene::primitives::plane::Plane as Triangle;
use benzene::shared::load_file::words_from_le_bytes;
use benzene::rendering::{BasicRenderingSystem, DescriptorSetsRequest, GpuRelease, RenderLoop, SceneRender};
use benzene::resources::buffer::{VAllocateMemoryConfig, VBufferConfig, VBufferState};
use benzene::resources::image::Image;
use benzene::resources::primitives::cube::Cube;
use benzene::resources::primitives::plane::Plane;
use benzene::resources::window_config::VWindowConfig;
use benzene::viewport::{clamp_u32, SceneViewport};

fn is_triangle_list(indices: &[u32], vertex_count: usize) -> bool {
    indices.len() % 3 == 0 && indices.iter().all(|&i| (i as usize) < vertex_count)
}

#[test]
fn cube_indices_cover_six_faces() {
    let indices = Cube::indices();
    assert_eq!(indices.len(), 36);
    assert_eq!(&indices[..6], &[0, 1, 2, 0, 2, 3]);
    assert_eq!(&indices[30..], &[20, 21, 22, 20, 22, 23]);
    assert!(is_triangle_list(&indices, Cube::VERTEX_COUNT));
}

#[test]
fn plane_indices_cover_two_squares() {
    let indices = Plane::indices();
    assert_eq!(indices, vec![0, 1, 2, 2, 3, 0, 4, 5, 6, 6, 7, 4]);
    assert!(is_triangle_list(&indices, Plane::VERTEX_COUNT));
}

#[test]
fn triangle_indices() {
    assert_eq!(Triangle::indices(), vec![0, 2, 1]);
    assert!(is_triangle_list(&Triangle::indices(), Triangle::VERTEX_COUNT));
}

#[test]
fn default_window_config() {
    let c = VWindowConfig::default();
    assert_eq!(c.title, "My Window");
    assert_eq!(c.width, 1000);
    assert_eq!(c.height, 600);
}

#[test]
fn destroying_an_image_releases_image_then_memory() {
    let image = Image { image: 11, memory: 12 };
    assert_eq!(image.destroy(), vec![GpuRelease::Image(11), GpuRelease::Memory(12)]);
}

#[test]
fn destroying_a_scene_render_releases_everything_in_order() {
    let render = SceneRender::new(1, vec![10, 11], vec![20, 21, 22], 30);
    assert_eq!(
        render.destroy(),
        vec![
            GpuRelease::PipelineInfo(10),
            GpuRelease::PipelineInfo(11),
            GpuRelease::DescriptorSetLayout(20),
            GpuRelease::DescriptorSetLayout(21),
            GpuRelease::DescriptorSetLayout(22),
            GpuRelease::DescriptorPool(30),
            GpuRelease::RenderingSystem(1),
        ]
    );
    let empty = SceneRender::new(2, vec![], vec![], 3);
    assert_eq!(empty.destroy(), vec![GpuRelease::DescriptorPool(3), GpuRelease::RenderingSystem(2)]);
}

#[test]
fn global_uniform_sets_are_one_per_frame_in_flight() {
    let render = SceneRender::new(1, vec![10], vec![20, 21], 30);
    assert_eq!(render.get_global_uniform_descriptor_set(), DescriptorSetsRequest { pool: 30, layout: 20, count: 2 });
}

#[test]
fn destroying_a_basic_system_releases_only_its_rendering_system() {
    let system = BasicRenderingSystem { rendering_system: 5, descriptor_layouts: vec![6, 7] };
    assert_eq!(system.destroy(), vec![GpuRelease::RenderingSystem(5)]);
    let _ = RenderLoop::new();
}

#[test]
fn buffer_descriptions() {
    assert_ne!(VBufferState::UNMAPPED, VBufferState::MAPPED(0));
    assert_eq!(VBufferConfig { size: 4 }.size, 4);
    let alloc = VAllocateMemoryConfig { size: 8, memory_type: 0b10, properties: 0x6 };
    assert_eq!(alloc.memory_type, 2);
}

#[test]
fn vulkan_errors_carry_operation_and_code() {
    assert_eq!(EngineError::vk("creating buffer", -2), EngineError::Vulkan { operation: "creating buffer", result: -2 });
}

#[test]
fn frame_rate_is_saved_once_a_second_has_passed() {
    let start: u128 = 5 * NANOS_PER_SECOND;
    let mut state = SceneFrameState::new(start);
    assert_eq!(state.fps, 0);
    state.record_frame(start + 100, start + 101);
    state.record_frame(start + 200, start + 201);
    assert_eq!(state.fps, 0);
    state.record_frame(start + NANOS_PER_SECOND, start + NANOS_PER_SECOND + 7);
    assert_eq!(state.fps, 3);
    state.record_frame(start + NANOS_PER_SECOND + 8, start + NANOS_PER_SECOND + 9);
    assert_eq!(state.fps, 3);
    state.record_frame(start + 2 * NANOS_PER_SECOND + 7, start + 2 * NANOS_PER_SECOND + 8);
    assert_eq!(state.fps, 2);
    assert_eq!(state.fps(), 2);
    assert_eq!(state.frames_since_save(), 0);
    assert_eq!(state.last_save_time(), start + 2 * NANOS_PER_SECOND + 8);
}

#[test]
fn full_viewport_covers_the_surface() {
    let v = SceneViewport::full(1920, 1080);
    assert_eq!((v.offset_x, v.offset_y, v.width, v.height), (0, 0, 1920, 1080));
}

#[test]
fn clamped_viewport_fits_inside_the_surface() {
    let v = SceneViewport { offset_x: 100, offset_y: 50, width: 2000, height: 2000 }.clamped(800, 600);
    assert_eq!((v.offset_x, v.offset_y, v.width, v.height), (100, 50, 700, 550));
    let far = SceneViewport { offset_x: 900, offset_y: 700, width: 10, height: 10 }.clamped(800, 600);
    assert_eq!((far.offset_x, far.offset_y, far.width, far.height), (799, 599, 1, 1));
    let empty = SceneViewport { offset_x: 0, offset_y: 0, width: 0, height: 0 }.clamped(800, 600);
    assert_eq!((empty.width, empty.height), (1, 1));
    let none = SceneViewport { offset_x: 5, offset_y: 5, width: 5, height: 5 }.clamped(0, 600);
    assert_eq!((none.offset_x, none.offset_y, none.width, none.height), (0, 0, 0, 0));
}

#[test]
fn clamping_twice_is_clamping_once() {
    let once = SceneViewport { offset_x: 700, offset_y: 10, width: 500, height: 0 }.clamped(800, 600);
    let twice = once.clamped(800, 600);
    assert_eq!((once.offset_x, once.offset_y, once.width, once.height), (twice.offset_x, twice.offset_y, twice.width, twice.height));
    let inside = SceneViewport { offset_x: 10, offset_y: 20, width: 30, height: 40 };
    let same = inside.clamped(800, 600);
    assert_eq!((same.offset_x, same.offset_y, same.width, same.height), (10, 20, 30, 40));
}

#[test]
fn clamp_limits_to_the_range() {
    assert_eq!(clamp_u32(5, 1, 10), 5);
    assert_eq!(clamp_u32(0, 1, 10), 1);
    assert_eq!(clamp_u32(11, 1, 10), 10);
}

#[test]
fn backend_events_go_to_the_rendering_system() {
    let render = SceneRender::new(4, vec![], vec![], 5);
    assert_eq!(render.handle_backend_event("framebuffers rebuilt"), (4, "framebuffers rebuilt"));
    let system = BasicRenderingSystem { rendering_system: 8, descriptor_layouts: vec![] };
    assert_eq!(system.handle_backend_event(3u8), (8, 3u8));
}

#[test]
fn spirv_bytes_become_little_endian_words() {
    let bytes = [0x03u8, 0x02, 0x23, 0x07, 0x01, 0x00, 0x01, 0x00, 0xFF];
    assert_eq!(words_from_le_bytes(&bytes), vec![0x0723_0203, 0x0001_0001]);
    assert_eq!(words_from_le_bytes(&[0xFF, 0xFF, 0xFF, 0xFF]), vec![u32::MAX]);
    assert!(words_from_le_bytes(&[1, 2, 3]).is_empty());
}
