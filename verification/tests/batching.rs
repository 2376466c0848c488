use polyline_render::material::{
    queue_material_polylines, sort_binned_phase, sort_transparent_phase, BinnedPhaseItem,
    Color, ExtractedView, GpuPolylineMaterial, Opaque3dBinKey, PipelineCache, PolylineMaterial,
    PolylineMaterialPipeline, RenderPhases, SpecializedRenderPipelines, Transparent3d,
    VisiblePolyline, FIXED_ONE,
};
use polyline_render::polyline::{
    extract_polylines, Mat4, PolylineEntity, PolylineHandle,
};
use polyline_render::render_resource::RenderDevice;

const DRAW_OPAQUE: u64 = 11;
const DRAW_ALPHA_MASK: u64 = 12;
const DRAW_TRANSPARENT: u64 = 13;

fn material_with_alpha(alpha: u32, device: &mut RenderDevice) -> GpuPolylineMaterial {
    let material = PolylineMaterial {
        color: Color { red: FIXED_ONE, green: 0, blue: 0, alpha },
        ..Default::default()
    };
    GpuPolylineMaterial::prepare_asset(&material, device)
}

fn queue(
    visible: &Vec<VisiblePolyline>,
    pipelines: &mut SpecializedRenderPipelines,
    cache: &mut PipelineCache,
    phases: &mut RenderPhases,
) {
    let material_pipeline = PolylineMaterialPipeline::new();
    let view = ExtractedView { entity: 900, hdr: false };
    queue_material_polylines(
        DRAW_OPAQUE,
        DRAW_ALPHA_MASK,
        DRAW_TRANSPARENT,
        &material_pipeline,
        pipelines,
        cache,
        4,
        &view,
        visible,
        phases,
    );
}

#[test]
fn transparent_and_opaque_go_to_different_phases() {
    let mut device = RenderDevice::new();
    let opaque = material_with_alpha(FIXED_ONE, &mut device);
    let transparent = material_with_alpha(FIXED_ONE / 2, &mut device);
    let visible = vec![
        VisiblePolyline { entity: 1, material: Some(transparent), view_z: -3 },
        VisiblePolyline { entity: 2, material: Some(opaque), view_z: -4 },
    ];
    let mut pipelines = SpecializedRenderPipelines::new();
    let mut cache = PipelineCache::new();
    let mut phases = RenderPhases::new();
    queue(&visible, &mut pipelines, &mut cache, &mut phases);

    assert_eq!(phases.transparent.len(), 1);
    assert_eq!(phases.transparent[0].entity, 1);
    assert_eq!(phases.transparent[0].draw_function, DRAW_TRANSPARENT);
    assert_eq!(phases.transparent[0].distance, -3);
    assert_eq!(phases.opaque.len(), 1);
    assert_eq!(phases.opaque[0].entity, 2);
    assert_eq!(phases.opaque[0].key.draw_function, DRAW_OPAQUE);
    assert!(phases.alpha_mask.is_empty());
    // Different keys, so different specialized pipelines.
    assert_ne!(phases.transparent[0].pipeline, phases.opaque[0].key.pipeline);
}

#[test]
fn missing_material_skips_the_entity() {
    let mut device = RenderDevice::new();
    let opaque = material_with_alpha(FIXED_ONE, &mut device);
    let visible = vec![
        VisiblePolyline { entity: 1, material: None, view_z: 0 },
        VisiblePolyline { entity: 2, material: Some(opaque), view_z: 0 },
    ];
    let mut pipelines = SpecializedRenderPipelines::new();
    let mut cache = PipelineCache::new();
    let mut phases = RenderPhases::new();
    queue(&visible, &mut pipelines, &mut cache, &mut phases);
    assert_eq!(phases.opaque.len(), 1);
    assert_eq!(phases.opaque[0].entity, 2);
    assert!(phases.transparent.is_empty());
}

#[test]
fn equal_configurations_share_one_pipeline() {
    let mut device = RenderDevice::new();
    let a = material_with_alpha(FIXED_ONE, &mut device);
    let b = material_with_alpha(FIXED_ONE, &mut device);
    let visible = vec![
        VisiblePolyline { entity: 1, material: Some(a), view_z: 0 },
        VisiblePolyline { entity: 2, material: Some(b), view_z: 0 },
    ];
    let mut pipelines = SpecializedRenderPipelines::new();
    let mut cache = PipelineCache::new();
    let mut phases = RenderPhases::new();
    queue(&visible, &mut pipelines, &mut cache, &mut phases);
    // One compiled pipeline, memoized for the second entity.
    assert_eq!(cache.descriptors.len(), 1);
    assert_eq!(phases.opaque[0].key.pipeline, phases.opaque[1].key.pipeline);
}

#[test]
fn transparent_phase_sorts_back_to_front() {
    // Three transparent items at view-space z of -5, -2 and -8: after
    // the back-to-front sort the farthest (-8) draws first and the
    // nearest (-2) draws last.
    let mut device = RenderDevice::new();
    let m = material_with_alpha(FIXED_ONE / 2, &mut device);
    let visible = vec![
        VisiblePolyline { entity: 1, material: Some(m.clone()), view_z: -5 },
        VisiblePolyline { entity: 2, material: Some(m.clone()), view_z: -2 },
        VisiblePolyline { entity: 3, material: Some(m), view_z: -8 },
    ];
    let mut pipelines = SpecializedRenderPipelines::new();
    let mut cache = PipelineCache::new();
    let mut phases = RenderPhases::new();
    queue(&visible, &mut pipelines, &mut cache, &mut phases);

    sort_transparent_phase(&mut phases.transparent);
    let order: Vec<(u64, i64)> =
        phases.transparent.iter().map(|t| (t.entity, t.distance)).collect();
    assert_eq!(order, vec![(3, -8), (1, -5), (2, -2)]);
}

#[test]
fn transparent_sort_is_stable_on_ties() {
    let item = |entity: u64, distance: i64| Transparent3d {
        entity,
        draw_function: DRAW_TRANSPARENT,
        pipeline: 0,
        distance,
    };
    let mut phase = vec![item(1, 5), item(2, 5), item(3, 0), item(4, 5), item(5, -1)];
    sort_transparent_phase(&mut phase);
    let order: Vec<u64> = phase.iter().map(|t| t.entity).collect();
    assert_eq!(order, vec![5, 3, 1, 2, 4]);
}

#[test]
fn binned_phase_sorts_by_pipeline_then_bind_group() {
    let item = |entity: u64, pipeline: usize, bind_group: Option<u64>| BinnedPhaseItem {
        key: Opaque3dBinKey {
            draw_function: DRAW_OPAQUE,
            pipeline,
            asset_id: u64::MAX,
            material_bind_group_id: bind_group,
        },
        entity,
    };
    let mut phase = vec![
        item(1, 2, Some(5)),
        item(2, 0, Some(9)),
        item(3, 2, Some(4)),
        item(4, 0, None),
        item(5, 2, Some(5)),
    ];
    sort_binned_phase(&mut phase);
    let order: Vec<u64> = phase.iter().map(|t| t.entity).collect();
    // Pipelines group together; within one, bind groups group together;
    // the two items of the same bin keep their submission order.
    assert_eq!(order, vec![4, 2, 3, 1, 5]);
}

#[test]
fn sorting_nothing_or_one_item_is_harmless() {
    let mut empty: Vec<Transparent3d> = Vec::new();
    sort_transparent_phase(&mut empty);
    assert!(empty.is_empty());

    let one = Transparent3d { entity: 1, draw_function: 0, pipeline: 0, distance: 9 };
    let mut single = vec![one];
    sort_transparent_phase(&mut single);
    assert_eq!(single, vec![one]);
}

#[test]
fn extraction_skips_invisible_entities() {
    let entity = |id: u64, inherited: bool, view: bool| PolylineEntity {
        entity: id,
        inherited_visibility: inherited,
        view_visibility: view,
        transform: Mat4::identity(),
        handle: PolylineHandle(id),
    };
    let query = vec![
        entity(1, true, true),
        entity(2, false, true),
        entity(3, true, false),
        entity(4, true, true),
    ];
    let extracted = extract_polylines(&query);
    let ids: Vec<u64> = extracted.iter().map(|e| e.entity).collect();
    assert_eq!(ids, vec![1, 4]);
    assert_eq!(extracted[0].handle, PolylineHandle(1));
    assert_eq!(extracted[0].uniform.transform, Mat4::identity());
}
