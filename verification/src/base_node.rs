//! The default pass-through node: node 0 of every graph. It reads no input
//! texture; its pass composites a pattern driven by the per-frame system
//! uniform onto whatever the output target already holds.

use vstd::prelude::*;

use crate::gpu;

verus! {

pub struct BaseNode {
    pipeline: wgpu::RenderPipeline,
    bind_group: wgpu::BindGroup,
}

impl BaseNode {
    /// Builds the node's pipeline state against the surface's format and
    /// binds the per-frame system uniform buffer.
    pub fn new(
        device: &wgpu::Device,
        config: &wgpu::SurfaceConfiguration,
        system_buffer: &wgpu::Buffer,
    ) -> (node: BaseNode) {
        let shader_src = "
struct System { screen: vec2<f32>, mouse: vec2<f32>, time: f32 }
@group(0) @binding(0) var<uniform> sys: System;
@vertex
fn vs_main(@builtin(vertex_index) i: u32) -> @builtin(position) vec4<f32> {
    let x = f32(i32(i) - 1) * 3.0;
    let y = (f32(i32(i & 1u)) * 2.0 - 1.0) * 3.0;
    return vec4<f32>(x, y, 0.0, 1.0);
}
@fragment
fn fs_main(@builtin(position) p: vec4<f32>) -> @location(0) vec4<f32> {
    let uv = p.xy / sys.screen;
    let d = distance(uv, sys.mouse / sys.screen);
    let g = 0.5 + 0.5 * sin(sys.time + d * 20.0);
    return vec4<f32>(uv.x, g, uv.y, 1.0);
}
";
        let bind_group_layout = gpu::uniform_bind_group_layout(device, "Base::bind_group_layout");
        let bind_group = gpu::uniform_bind_group(device, &bind_group_layout, system_buffer, "Base::bind_group");
        let shader = gpu::shader_module(device, shader_src);
        let layout = gpu::pipeline_layout(device, &bind_group_layout);
        let pipeline = gpu::render_pipeline(device, &layout, config, &shader, "Base::render_pipeline");
        BaseNode { pipeline, bind_group }
    }

    /// Issues the node's single render pass into `output`, loading the
    /// target's existing contents, and submits it to `queue`.
    pub fn process(&self, device: &wgpu::Device, output: &wgpu::TextureView, queue: &wgpu::Queue) {
        let mut encoder = gpu::command_encoder(device, "Render Encoder");
        {
            let mut pass = gpu::begin_load_pass(&mut encoder, output, "Base::pass");
            gpu::pass_set_pipeline(&mut pass, &self.pipeline);
            gpu::pass_set_bind_group(&mut pass, 0, &self.bind_group);
            gpu::pass_draw(&mut pass, 3, 1);
        }
        let buffer = gpu::finish_encoder(encoder);
        gpu::queue_submit(queue, buffer);
    }
}

} // verus!
