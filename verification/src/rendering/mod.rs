//! What the rendering systems own on the GPU, and what releasing them frees.
use vstd::prelude::*;

use crate::constants::MAX_FRAMES_IN_FLIGHT;

verus! {

/// A GPU object to release, by raw handle.
#[derive(Clone, Copy, Debug, PartialEq, Eq)]
pub enum GpuRelease {
    /// A pipeline and its layout, described by the pipeline info's layout.
    PipelineInfo(u64),
    DescriptorSetLayout(u64),
    DescriptorPool(u64),
    /// A rendering system with its pipelines and framebuffers.
    RenderingSystem(u64),
    Image(u64),
    Memory(u64),
}

/// A request for descriptor sets: from this pool, of this layout, this many.
#[derive(Clone, Copy, Debug, PartialEq, Eq)]
pub struct DescriptorSetsRequest {
    pub pool: u64,
    pub layout: u64,
    pub count: usize,
}

/// What a rendering system is built from: its pipeline infos, by raw handle.
#[derive(Clone, Debug)]
pub struct VRenderingSystemConfig {
    pub pipeline_infos: Vec<u64>,
}

/// Draws the scene's recordables with one pipeline.
#[derive(Clone, Debug)]
pub struct SceneRender {
    pub rendering_system: u64,
    pub pipeline_infos: Vec<u64>,
    pub descriptor_layouts: Vec<u64>,
    pub descriptor_pool: u64,
}

impl SceneRender {
    pub fn new(rendering_system: u64, pipeline_infos: Vec<u64>, descriptor_layouts: Vec<u64>, descriptor_pool: u64) -> (r: Self)
        ensures
            r.rendering_system == rendering_system,
            r.pipeline_infos == pipeline_infos,
            r.descriptor_layouts == descriptor_layouts,
            r.descriptor_pool == descriptor_pool,
    {
        SceneRender { rendering_system, pipeline_infos, descriptor_layouts, descriptor_pool }
    }

    /// One global-uniform descriptor set per frame in flight, of the first
    /// descriptor layout, from the render's pool.
    pub fn get_global_uniform_descriptor_set(&self) -> (r: DescriptorSetsRequest)
        requires
            self.descriptor_layouts@.len() > 0,
        ensures
            r == (DescriptorSetsRequest { pool: self.descriptor_pool, layout: self.descriptor_layouts@[0], count: MAX_FRAMES_IN_FLIGHT }),
    {
        DescriptorSetsRequest { pool: self.descriptor_pool, layout: self.descriptor_layouts[0], count: MAX_FRAMES_IN_FLIGHT }
    }

    /// A backend event (such as rebuilt framebuffers) goes, unchanged, to the
    /// render's rendering system: the result names the receiver.
    pub fn handle_backend_event<E>(&self, event: E) -> (forward: (u64, E))
        ensures
            forward == (self.rendering_system, event),
    {
        (self.rendering_system, event)
    }

    /// What destroying the render releases, in order: every pipeline info,
    /// every descriptor layout, the descriptor pool, the rendering system.
    pub fn destroy(&self) -> (r: Vec<GpuRelease>)
        ensures
            r@ == self.pipeline_infos@.map_values(|h: u64| GpuRelease::PipelineInfo(h))
                + self.descriptor_layouts@.map_values(|h: u64| GpuRelease::DescriptorSetLayout(h))
                + seq![GpuRelease::DescriptorPool(self.descriptor_pool), GpuRelease::RenderingSystem(self.rendering_system)],
    {
        let mut r: Vec<GpuRelease> = Vec::new();
        let mut i: usize = 0;
        while i < self.pipeline_infos.len()
            invariant
                i <= self.pipeline_infos@.len(),
                r@ == self.pipeline_infos@.take(i as int).map_values(|h: u64| GpuRelease::PipelineInfo(h)),
            decreases self.pipeline_infos.len() - i,
        {
            r.push(GpuRelease::PipelineInfo(self.pipeline_infos[i]));
            proof {
                assert(self.pipeline_infos@.take(i + 1).map_values(|h: u64| GpuRelease::PipelineInfo(h))
                    =~= self.pipeline_infos@.take(i as int).map_values(|h: u64| GpuRelease::PipelineInfo(h)).push(GpuRelease::PipelineInfo(self.pipeline_infos@[i as int])));
            }
            i = i + 1;
        }
        proof {
            assert(self.pipeline_infos@.take(i as int) =~= self.pipeline_infos@);
        }
        let ghost first = r@;
        let mut j: usize = 0;
        while j < self.descriptor_layouts.len()
            invariant
                j <= self.descriptor_layouts@.len(),
                r@ == first + self.descriptor_layouts@.take(j as int).map_values(|h: u64| GpuRelease::DescriptorSetLayout(h)),
            decreases self.descriptor_layouts.len() - j,
        {
            r.push(GpuRelease::DescriptorSetLayout(self.descriptor_layouts[j]));
            proof {
                assert(self.descriptor_layouts@.take(j + 1).map_values(|h: u64| GpuRelease::DescriptorSetLayout(h))
                    =~= self.descriptor_layouts@.take(j as int).map_values(|h: u64| GpuRelease::DescriptorSetLayout(h)).push(GpuRelease::DescriptorSetLayout(self.descriptor_layouts@[j as int])));
                assert(r@ =~= first + self.descriptor_layouts@.take(j + 1).map_values(|h: u64| GpuRelease::DescriptorSetLayout(h)));
            }
            j = j + 1;
        }
        proof {
            assert(self.descriptor_layouts@.take(j as int) =~= self.descriptor_layouts@);
        }
        r.push(GpuRelease::DescriptorPool(self.descriptor_pool));
        r.push(GpuRelease::RenderingSystem(self.rendering_system));
        proof {
            assert(r@ =~= self.pipeline_infos@.map_values(|h: u64| GpuRelease::PipelineInfo(h))
                + self.descriptor_layouts@.map_values(|h: u64| GpuRelease::DescriptorSetLayout(h))
                + seq![GpuRelease::DescriptorPool(self.descriptor_pool), GpuRelease::RenderingSystem(self.rendering_system)]);
        }
        r
    }
}

/// Draws indexed geometry with one pipeline.
#[derive(Clone, Debug)]
pub struct BasicRenderingSystem {
    pub rendering_system: u64,
    pub descriptor_layouts: Vec<u64>,
}

impl BasicRenderingSystem {
    /// A backend event (such as rebuilt framebuffers) goes, unchanged, to the
    /// system's rendering system: the result names the receiver.
    pub fn handle_backend_event<E>(&self, event: E) -> (forward: (u64, E))
        ensures
            forward == (self.rendering_system, event),
    {
        (self.rendering_system, event)
    }

    /// What destroying the system releases: its rendering system only (the
    /// descriptor layouts stay with their owner).
    pub fn destroy(&self) -> (r: Vec<GpuRelease>)
        ensures
            r@ == seq![GpuRelease::RenderingSystem(self.rendering_system)],
    {
        let mut r = Vec::new();
        r.push(GpuRelease::RenderingSystem(self.rendering_system));
        r
    }
}

/// The frame loop's state; it holds nothing between frames.
#[derive(Clone, Copy, Debug)]
pub struct RenderLoop {}

impl RenderLoop {
    pub fn new() -> (r: Self) {
        RenderLoop {}
    }
}

} // verus!
