use polyline_render::material::{PipelineCache, PolylineMaterialPipeline, SpecializedRenderPipelines};
use polyline_render::pipeline::{
    build_pipelines, new_miter_join_pipeline, new_polyline_pipeline, PipelineDescriptor,
    PipelineName, MITER_JOIN_PIPELINE_HANDLE, POLYLINE_PIPELINE_HANDLE,
};
use polyline_render::polyline::{PolylinePipeline, PolylinePipelineKey};
use polyline_render::render_resource::{
    BindGroupLayout, BlendState, CompareFunction, FrontFace, PipelineLabel, PrimitiveTopology,
    ShaderDef, TextureFormat, VertexStepMode,
};

fn key(perspective: bool, transparent: bool, hdr: bool, clipping: bool, msaa: u32) -> PolylinePipelineKey {
    let mut k = PolylinePipelineKey::from_msaa_samples(msaa).union(PolylinePipelineKey::from_hdr(hdr));
    if perspective {
        k = k.union(PolylinePipelineKey::perspective());
    }
    if transparent {
        k = k.union(PolylinePipelineKey::transparent_main_pass());
    }
    if clipping {
        k = k.union(PolylinePipelineKey::clipping());
    }
    k
}

#[test]
fn opaque_variant_replaces_and_writes_depth() {
    let descriptor = PolylinePipeline::new().specialize(key(false, false, false, false, 1));
    assert_eq!(descriptor.label, PipelineLabel::OpaquePolyline);
    let fragment = descriptor.fragment.unwrap();
    assert_eq!(fragment.targets[0].blend, Some(BlendState::Replace));
    assert_eq!(fragment.targets[0].format, TextureFormat::Rgba8UnormSrgb);
    let depth = descriptor.depth_stencil.unwrap();
    assert!(depth.depth_write_enabled);
    assert_eq!(depth.depth_compare, CompareFunction::Greater);
    assert_eq!(descriptor.multisample.count, 1);
}

#[test]
fn transparent_variant_blends_without_depth_writes() {
    let descriptor = PolylinePipeline::new().specialize(key(false, true, false, false, 4));
    assert_eq!(descriptor.label, PipelineLabel::TransparentPolyline);
    let fragment = descriptor.fragment.unwrap();
    assert_eq!(fragment.targets[0].blend, Some(BlendState::AlphaBlending));
    assert!(!descriptor.depth_stencil.unwrap().depth_write_enabled);
    assert_eq!(descriptor.multisample.count, 4);
}

#[test]
fn perspective_variant_blends_but_keeps_depth_writes() {
    let descriptor = PolylinePipeline::new().specialize(key(true, false, false, false, 1));
    assert_eq!(descriptor.label, PipelineLabel::TransparentPolyline);
    let fragment = descriptor.fragment.unwrap();
    assert_eq!(fragment.targets[0].blend, Some(BlendState::AlphaBlending));
    assert!(descriptor.depth_stencil.unwrap().depth_write_enabled);
}

#[test]
fn hdr_variant_targets_the_hdr_format() {
    let descriptor = PolylinePipeline::new().specialize(key(false, false, true, false, 1));
    assert_eq!(descriptor.fragment.unwrap().targets[0].format, TextureFormat::Rgba16Float);
}

#[test]
fn vertex_buffers_step_per_instance_offset_by_one_point() {
    let descriptor = PolylinePipeline::new().specialize(key(false, false, false, false, 1));
    assert_eq!(descriptor.primitive.topology, PrimitiveTopology::TriangleList);
    assert_eq!(descriptor.primitive.front_face, FrontFace::Ccw);
    assert_eq!(descriptor.primitive.cull_mode, None);
    assert_eq!(descriptor.vertex.buffers.len(), 2);
    for (slot, buffer) in descriptor.vertex.buffers.iter().enumerate() {
        assert_eq!(buffer.array_stride, 12);
        assert_eq!(buffer.step_mode, VertexStepMode::Instance);
        assert_eq!(buffer.attributes.len(), 1);
        assert_eq!(buffer.attributes[0].offset, 0);
        assert_eq!(buffer.attributes[0].shader_location, slot as u32);
    }
    // The base pipeline leaves the bind-group layout to the material
    // pipeline.
    assert!(descriptor.layout.is_empty());
}

#[test]
fn material_specialization_sets_defines_and_layouts() {
    let pipeline = PolylineMaterialPipeline::new();
    let descriptor = pipeline.specialize(key(true, false, false, true, 1));
    assert_eq!(descriptor.vertex.shader_defs, vec![ShaderDef::PolylinePerspective]);
    assert_eq!(descriptor.fragment.unwrap().shader_defs, vec![ShaderDef::PolylineClipping]);
    assert_eq!(
        descriptor.layout,
        vec![
            BindGroupLayout::ViewLayout,
            BindGroupLayout::PolylineLayout,
            BindGroupLayout::MaterialLayout,
            BindGroupLayout::HalfSpacesLayout,
        ]
    );

    let plain = pipeline.specialize(key(false, false, false, false, 1));
    assert!(plain.vertex.shader_defs.is_empty());
    assert!(plain.fragment.unwrap().shader_defs.is_empty());
}

#[test]
fn specialization_is_memoized_per_key() {
    let material_pipeline = PolylineMaterialPipeline::new();
    let mut pipelines = SpecializedRenderPipelines::new();
    let mut cache = PipelineCache::new();

    let a = pipelines.specialize(&mut cache, &material_pipeline, key(false, false, false, false, 1));
    let b = pipelines.specialize(&mut cache, &material_pipeline, key(false, false, false, false, 1));
    assert_eq!(a, b);
    assert_eq!(cache.descriptors.len(), 1);

    let c = pipelines.specialize(&mut cache, &material_pipeline, key(true, false, false, false, 1));
    assert_ne!(a, c);
    assert_eq!(cache.descriptors.len(), 2);
    // The cached descriptor is the key's specialization, compiled once.
    assert_eq!(*cache.get(a), material_pipeline.specialize(key(false, false, false, false, 1)));
}

#[test]
fn fixed_pipeline_pair_registers_under_its_handles() {
    assert_eq!(new_polyline_pipeline().pipeline, POLYLINE_PIPELINE_HANDLE);
    assert_eq!(new_miter_join_pipeline().pipeline, MITER_JOIN_PIPELINE_HANDLE);

    let mut registry: Vec<(u64, PipelineDescriptor)> = Vec::new();
    build_pipelines(&mut registry);
    assert_eq!(registry.len(), 2);
    assert_eq!(registry[0].0, POLYLINE_PIPELINE_HANDLE);
    assert_eq!(registry[0].1.name, PipelineName::Polyline);
    assert_eq!(registry[1].0, MITER_JOIN_PIPELINE_HANDLE);
    assert_eq!(registry[1].1.name, PipelineName::MiterJoin);
    assert_eq!(registry[0].1.primitive.topology, PrimitiveTopology::TriangleList);
    assert_eq!(registry[0].1.primitive.cull_mode, None);
}
