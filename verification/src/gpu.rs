//! The boundary to wgpu: declarations of the opaque GPU handle types and one
//! trusted wrapper per wgpu function the graph relies on. Every wrapper's body
//! only builds the call's descriptor from its arguments and makes the call;
//! the handles it returns are opaque, so nothing further is claimed of them.

use vstd::prelude::*;

verus! {

#[verifier::external_type_specification]
#[verifier::external_body]
pub struct ExDevice(wgpu::Device);

#[verifier::external_type_specification]
#[verifier::external_body]
pub struct ExQueue(wgpu::Queue);

#[verifier::external_type_specification]
#[verifier::external_body]
pub struct ExBuffer(wgpu::Buffer);

#[verifier::external_type_specification]
#[verifier::external_body]
pub struct ExTexture(wgpu::Texture);

#[verifier::external_type_specification]
#[verifier::external_body]
pub struct ExTextureView(wgpu::TextureView);

#[verifier::external_type_specification]
#[verifier::external_body]
pub struct ExSampler(wgpu::Sampler);

#[verifier::external_type_specification]
#[verifier::external_body]
pub struct ExBindGroupLayout(wgpu::BindGroupLayout);

#[verifier::external_type_specification]
#[verifier::external_body]
pub struct ExBindGroup(wgpu::BindGroup);

#[verifier::external_type_specification]
#[verifier::external_body]
pub struct ExPipelineLayout(wgpu::PipelineLayout);

#[verifier::external_type_specification]
#[verifier::external_body]
pub struct ExRenderPipeline(wgpu::RenderPipeline);

#[verifier::external_type_specification]
#[verifier::external_body]
pub struct ExShaderModule(wgpu::ShaderModule);

#[verifier::external_type_specification]
#[verifier::external_body]
pub struct ExCommandEncoder(wgpu::CommandEncoder);

#[verifier::external_type_specification]
#[verifier::external_body]
pub struct ExCommandBuffer(wgpu::CommandBuffer);

#[verifier::external_type_specification]
#[verifier::external_body]
pub struct ExRenderPass<'a>(wgpu::RenderPass<'a>);

#[verifier::external_type_specification]
#[verifier::external_body]
pub struct ExTextureFormat(wgpu::TextureFormat);

#[verifier::external_type_specification]
#[verifier::external_body]
#[verifier::reject_recursive_types(V)]
pub struct ExSurfaceConfiguration<V>(wgpu_types::SurfaceConfiguration<V>);

/// Relies on wgpu's Device::create_shader_module: compiles WGSL source into a
/// shader module handle.
#[verifier::external_body]
pub(crate) fn shader_module(device: &wgpu::Device, src: &str) -> wgpu::ShaderModule {
    device.create_shader_module(wgpu::ShaderModuleDescriptor {
        label: None,
        source: wgpu::ShaderSource::Wgsl(src.into()),
    })
}

/// Relies on wgpu's Device::create_bind_group_layout: a layout with a single
/// uniform-buffer binding visible to the fragment stage.
#[verifier::external_body]
pub(crate) fn uniform_bind_group_layout(device: &wgpu::Device, label: &str) -> wgpu::BindGroupLayout {
    let entry = wgpu::BindGroupLayoutEntry {
        binding: 0,
        visibility: wgpu::ShaderStages::FRAGMENT,
        ty: wgpu::BindingType::Buffer {
            ty: wgpu::BufferBindingType::Uniform,
            has_dynamic_offset: false,
            min_binding_size: None,
        },
        count: None,
    };
    device.create_bind_group_layout(&wgpu::BindGroupLayoutDescriptor { label: Some(label), entries: &[entry] })
}

/// Relies on wgpu's Device::create_bind_group_layout: a layout with a sampled
/// 2D texture and a filtering sampler, both visible to the fragment stage.
#[verifier::external_body]
pub(crate) fn texture_bind_group_layout(device: &wgpu::Device, label: &str) -> wgpu::BindGroupLayout {
    let tex = wgpu::BindingType::Texture {
        sample_type: wgpu::TextureSampleType::Float { filterable: true },
        view_dimension: wgpu::TextureViewDimension::D2,
        multisampled: false,
    };
    let entries = [
        wgpu::BindGroupLayoutEntry { binding: 0, visibility: wgpu::ShaderStages::FRAGMENT, ty: tex, count: None },
        wgpu::BindGroupLayoutEntry { binding: 1, visibility: wgpu::ShaderStages::FRAGMENT, ty: wgpu::BindingType::Sampler(wgpu::SamplerBindingType::Filtering), count: None },
    ];
    device.create_bind_group_layout(&wgpu::BindGroupLayoutDescriptor { label: Some(label), entries: &entries })
}

/// Relies on wgpu's Device::create_bind_group: binds one uniform buffer at
/// binding 0 of the given layout.
#[verifier::external_body]
pub(crate) fn uniform_bind_group(device: &wgpu::Device, layout: &wgpu::BindGroupLayout, buffer: &wgpu::Buffer, label: &str) -> wgpu::BindGroup {
    let entry = wgpu::BindGroupEntry { binding: 0, resource: buffer.as_entire_binding() };
    device.create_bind_group(&wgpu::BindGroupDescriptor { label: Some(label), layout, entries: &[entry] })
}

/// Relies on wgpu's Device::create_bind_group: binds a texture view at binding
/// 0 and its sampler at binding 1 of the given layout.
#[verifier::external_body]
pub(crate) fn texture_bind_group(device: &wgpu::Device, layout: &wgpu::BindGroupLayout, view: &wgpu::TextureView, sampler: &wgpu::Sampler, label: &str) -> wgpu::BindGroup {
    let entries = [
        wgpu::BindGroupEntry { binding: 0, resource: wgpu::BindingResource::TextureView(view) },
        wgpu::BindGroupEntry { binding: 1, resource: wgpu::BindingResource::Sampler(sampler) },
    ];
    device.create_bind_group(&wgpu::BindGroupDescriptor { label: Some(label), layout, entries: &entries })
}

/// Relies on wgpu's Device::create_pipeline_layout: a pipeline layout over one
/// bind group layout and no push constants.
#[verifier::external_body]
pub(crate) fn pipeline_layout(device: &wgpu::Device, layout: &wgpu::BindGroupLayout) -> wgpu::PipelineLayout {
    device.create_pipeline_layout(&wgpu::PipelineLayoutDescriptor {
        label: None,
        bind_group_layouts: &[layout],
        push_constant_ranges: &[],
    })
}

/// Relies on wgpu's Device::create_render_pipeline: a triangle-list pipeline
/// with the module's vs_main and fs_main entry points, rendering into one
/// color target of the surface's format.
#[verifier::external_body]
pub(crate) fn render_pipeline(device: &wgpu::Device, layout: &wgpu::PipelineLayout, config: &wgpu::SurfaceConfiguration, shader: &wgpu::ShaderModule, label: &str) -> wgpu::RenderPipeline {
    let target = wgpu::ColorTargetState { format: config.format, blend: None, write_mask: wgpu::ColorWrites::ALL };
    device.create_render_pipeline(&wgpu::RenderPipelineDescriptor {
        label: Some(label),
        layout: Some(layout),
        vertex: wgpu::VertexState { module: shader, entry_point: "vs_main", buffers: &[] },
        fragment: Some(wgpu::FragmentState { module: shader, entry_point: "fs_main", targets: &[Some(target)] }),
        primitive: wgpu::PrimitiveState::default(),
        depth_stencil: None,
        multisample: wgpu::MultisampleState::default(),
        multiview: None,
    })
}

/// Relies on wgpu's Device::create_texture: a 2D color texture of the
/// surface's size and format, usable as a render attachment and for sampling.
#[verifier::external_body]
pub(crate) fn create_texture(device: &wgpu::Device, config: &wgpu::SurfaceConfiguration, label: &str) -> wgpu::Texture {
    device.create_texture(&wgpu::TextureDescriptor {
        label: Some(label),
        size: wgpu::Extent3d { width: config.width, height: config.height, depth_or_array_layers: 1 },
        mip_level_count: 1,
        sample_count: 1,
        dimension: wgpu::TextureDimension::D2,
        format: config.format,
        usage: wgpu::TextureUsages::TEXTURE_BINDING | wgpu::TextureUsages::RENDER_ATTACHMENT,
        view_formats: &[],
    })
}

/// Relies on wgpu's Texture::create_view with the default descriptor.
#[verifier::external_body]
pub(crate) fn texture_view(texture: &wgpu::Texture) -> wgpu::TextureView {
    texture.create_view(&wgpu::TextureViewDescriptor::default())
}

/// Relies on wgpu's Device::create_sampler: a sampler with nearest-neighbour
/// filtering.
#[verifier::external_body]
pub(crate) fn nearest_sampler(device: &wgpu::Device) -> wgpu::Sampler {
    device.create_sampler(&wgpu::SamplerDescriptor {
        mag_filter: wgpu::FilterMode::Nearest,
        min_filter: wgpu::FilterMode::Nearest,
        ..wgpu::SamplerDescriptor::default()
    })
}

/// Relies on wgpu's Device::create_command_encoder.
#[verifier::external_body]
pub(crate) fn command_encoder(device: &wgpu::Device, label: &str) -> wgpu::CommandEncoder {
    device.create_command_encoder(&wgpu::CommandEncoderDescriptor { label: Some(label) })
}

/// Relies on wgpu's CommandEncoder::begin_render_pass: one render pass with a
/// single color attachment that loads the target's existing contents and
/// stores the pass's results.
#[verifier::external_body]
pub(crate) fn begin_load_pass<'a>(encoder: &'a mut wgpu::CommandEncoder, output: &'a wgpu::TextureView, label: &str) -> wgpu::RenderPass<'a> {
    let attachment = wgpu::RenderPassColorAttachment {
        view: output,
        resolve_target: None,
        ops: wgpu::Operations { load: wgpu::LoadOp::Load, store: wgpu::StoreOp::Store },
    };
    encoder.begin_render_pass(&wgpu::RenderPassDescriptor {
        label: Some(label),
        color_attachments: &[Some(attachment)],
        depth_stencil_attachment: None,
        timestamp_writes: None,
        occlusion_query_set: None,
    })
}

/// Relies on wgpu's RenderPass::set_pipeline.
#[verifier::external_body]
pub(crate) fn pass_set_pipeline<'a>(pass: &mut wgpu::RenderPass<'a>, pipeline: &'a wgpu::RenderPipeline) {
    pass.set_pipeline(pipeline);
}

/// Relies on wgpu's RenderPass::set_bind_group, with no dynamic offsets.
#[verifier::external_body]
pub(crate) fn pass_set_bind_group<'a>(pass: &mut wgpu::RenderPass<'a>, index: u32, bind_group: &'a wgpu::BindGroup) {
    pass.set_bind_group(index, bind_group, &[]);
}

/// Relies on wgpu's RenderPass::draw over the given vertex and instance counts.
#[verifier::external_body]
pub(crate) fn pass_draw(pass: &mut wgpu::RenderPass<'_>, vertices: u32, instances: u32) {
    pass.draw(0..vertices, 0..instances);
}

/// Relies on wgpu's CommandEncoder::finish: closes the encoder into a command
/// buffer.
#[verifier::external_body]
pub(crate) fn finish_encoder(encoder: wgpu::CommandEncoder) -> wgpu::CommandBuffer {
    encoder.finish()
}

/// Relies on wgpu's Queue::submit: hands one command buffer to the queue.
#[verifier::external_body]
pub(crate) fn queue_submit(queue: &wgpu::Queue, buffer: wgpu::CommandBuffer) {
    let _ = queue.submit(Some(buffer));
}

} // verus!
