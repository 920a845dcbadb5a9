//! A texture-sampling node: it reads exactly one bound input texture and
//! tiles a shrunken copy of it onto its output target. Until an input is
//! bound, executing the node is a silent no-op.

use vstd::prelude::*;

use crate::gpu;
use crate::texture::FrameTarget;

verus! {

/// The node's sole read input once bound: the bind group handed to the
/// pipeline, and the ping/pong slot of the texture it was built from.
pub struct BoundInput {
    pub bind_group: wgpu::BindGroup,
    pub source: usize,
}

pub struct FractNode {
    pipeline: wgpu::RenderPipeline,
    bind_group_layout: wgpu::BindGroupLayout,
    bound: Option<BoundInput>,
}

impl FractNode {
    /// True once an input texture has been bound; only then does `process`
    /// issue any GPU work.
    pub open spec fn is_bound(&self) -> bool {
        self.source_slot() is Some
    }

    /// The ping/pong slot of the bound input texture, if one is bound.
    pub closed spec fn source_slot(&self) -> Option<int> {
        match self.bound {
            Option::Some(b) => Option::Some(b.source as int),
            Option::None => Option::None,
        }
    }

    /// Builds the node's pipeline state against the surface's format. The
    /// node starts with no input bound.
    pub fn new(device: &wgpu::Device, config: &wgpu::SurfaceConfiguration) -> (node: FractNode)
        ensures
            !node.is_bound(),
            node.source_slot() is None,
    {
        let shader_src = "
@group(0) @binding(0) var t_input: texture_2d<f32>;
@group(0) @binding(1) var s_input: sampler;
@vertex
fn vs_main(@builtin(vertex_index) i: u32) -> @builtin(position) vec4<f32> {
    let x = f32(i32(i) - 1) * 3.0;
    let y = (f32(i32(i & 1u)) * 2.0 - 1.0) * 3.0;
    return vec4<f32>(x, y, 0.0, 1.0);
}
@fragment
fn fs_main(@builtin(position) p: vec4<f32>) -> @location(0) vec4<f32> {
    let d = textureDimensions(t_input);
    let uv = p.xy / vec2<f32>(f32(d.x), f32(d.y));
    return textureSample(t_input, s_input, fract(uv * 2.0));
}
";
        let bind_group_layout = gpu::texture_bind_group_layout(device, "Fract::bg_layout");
        let shader = gpu::shader_module(device, shader_src);
        let layout = gpu::pipeline_layout(device, &bind_group_layout);
        let pipeline = gpu::render_pipeline(device, &layout, config, &shader, "Fract::render_pipeline");
        FractNode { pipeline, bind_group_layout, bound: None }
    }

    /// Issues the node's single render pass into `output` and submits it,
    /// if an input is bound; otherwise does nothing and submits nothing.
    pub fn process(&self, device: &wgpu::Device, output: &wgpu::TextureView, queue: &wgpu::Queue) -> (submitted: bool)
        ensures
            submitted == self.is_bound(),
    {
        match &self.bound {
            Option::Some(b) => {
                let mut encoder = gpu::command_encoder(device, "Fract Node Encoder");
                {
                    let mut pass = gpu::begin_load_pass(&mut encoder, output, "Fract::pass");
                    gpu::pass_set_pipeline(&mut pass, &self.pipeline);
                    gpu::pass_set_bind_group(&mut pass, 0, &b.bind_group);
                    gpu::pass_draw(&mut pass, 3, 1);
                }
                let buffer = gpu::finish_encoder(encoder);
                gpu::queue_submit(queue, buffer);
                true
            }
            Option::None => false,
        }
    }

    /// Associates `texture` as the node's sole read input, building the bind
    /// group its pipeline expects and recording the texture's ping/pong slot.
    /// An input is bound at most once, before the node's first execution.
    pub fn set_bind_group(&mut self, device: &wgpu::Device, texture: &FrameTarget)
        requires
            !old(self).is_bound(),
        ensures
            final(self).is_bound(),
            final(self).source_slot() == Option::Some(texture.slot as int),
    {
        let bind_group = gpu::texture_bind_group(device, &self.bind_group_layout, &texture.view, &texture.sampler, "Fract::bg");
        self.bound = Some(BoundInput { bind_group, source: texture.slot });
    }
}

} // verus!
