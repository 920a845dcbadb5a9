//! An offscreen 2D color texture together with its view and sampler, tagged
//! with the ping/pong slot it occupies in the graph's target pair.

use vstd::prelude::*;

use crate::gpu;

verus! {

/// One member of the graph's ping/pong pair: an offscreen color surface a
/// node can render into and a later node can sample from.
pub struct FrameTarget {
    pub texture: wgpu::Texture,
    pub view: wgpu::TextureView,
    pub sampler: wgpu::Sampler,
    /// Which member of the graph's ping/pong pair this texture is.
    pub slot: usize,
}

impl FrameTarget {
    /// Allocates a 2D color texture matching the surface's current size and
    /// format, with a nearest-neighbour sampler, recording the ping/pong slot
    /// it will serve as.
    pub fn create_2d_texture(
        device: &wgpu::Device,
        config: &wgpu::SurfaceConfiguration,
        slot: usize,
        label: &str,
    ) -> (t: FrameTarget)
        ensures
            t.slot == slot,
    {
        let texture = gpu::create_texture(device, config, label);
        let view = gpu::texture_view(&texture);
        let sampler = gpu::nearest_sampler(device);
        FrameTarget { texture, view, sampler, slot }
    }
}

} // verus!
