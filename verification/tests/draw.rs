use polyline_render::material::{
    draw_polyline_material, GpuPolylineMaterial, PolylineMaterial,
};
use polyline_render::polyline::{
    DrawPolyline, GpuPolyline, Point3, Polyline, PolylineBindGroup, PolylinePipeline,
    PolylineViewBindGroup, SetPolylineBindGroup,
};
use polyline_render::render_resource::{PassOp, RenderCommandResult, RenderDevice, TrackedRenderPass};

fn point(x: f32, y: f32, z: f32) -> Point3 {
    Point3 { x: x.to_bits(), y: y.to_bits(), z: z.to_bits() }
}

fn gpu_polyline_of(points: Vec<Point3>, device: &mut RenderDevice) -> GpuPolyline {
    GpuPolyline::prepare_asset(&Polyline { vertices: points }, device)
}

#[test]
fn empty_polyline_issues_no_draw() {
    let mut device = RenderDevice::new();
    let gpu = gpu_polyline_of(vec![], &mut device);
    let mut pass = TrackedRenderPass::new();
    let result = DrawPolyline::render(Some(&gpu), &mut pass);
    assert_eq!(result, RenderCommandResult::Success);
    assert!(pass.ops.is_empty());
}

#[test]
fn one_point_polyline_issues_no_draw() {
    let mut device = RenderDevice::new();
    let gpu = gpu_polyline_of(vec![point(1.0, 2.0, 3.0)], &mut device);
    let mut pass = TrackedRenderPass::new();
    let result = DrawPolyline::render(Some(&gpu), &mut pass);
    assert_eq!(result, RenderCommandResult::Success);
    assert!(pass.ops.is_empty());
}

#[test]
fn missing_gpu_polyline_fails_the_item() {
    let mut pass = TrackedRenderPass::new();
    let result = DrawPolyline::render(None, &mut pass);
    assert_eq!(result, RenderCommandResult::Failure);
    assert!(pass.ops.is_empty());
}

#[test]
fn two_point_polyline_issues_one_instance() {
    // A two-point polyline yields exactly one quad instance; with
    // perspective off its screen-space width does not depend on the
    // camera's distance (the shader never divides by w), so only the
    // instance count is decided here.
    let mut device = RenderDevice::new();
    let gpu = gpu_polyline_of(vec![point(0.0, 0.0, 0.0), point(1.0, 1.0, 1.0)], &mut device);
    assert_eq!(gpu.vertex_count, 2);
    assert_eq!(gpu.vertex_buffer.contents.len(), 24);

    let mut pass = TrackedRenderPass::new();
    let result = DrawPolyline::render(Some(&gpu), &mut pass);
    assert_eq!(result, RenderCommandResult::Success);
    assert_eq!(
        pass.ops,
        vec![
            PassOp::SetVertexBuffer { slot: 0, buffer: gpu.vertex_buffer.id, offset: 0, size: 12 },
            PassOp::SetVertexBuffer { slot: 1, buffer: gpu.vertex_buffer.id, offset: 12, size: 12 },
            PassOp::Draw { vertices: 6, instances: 1 },
        ]
    );
}

#[test]
fn n_point_polyline_issues_n_minus_one_instances() {
    let mut device = RenderDevice::new();
    for n in [2usize, 3, 5, 17] {
        let points: Vec<Point3> = (0..n).map(|i| point(i as f32, 0.0, 0.0)).collect();
        let gpu = gpu_polyline_of(points, &mut device);
        let mut pass = TrackedRenderPass::new();
        DrawPolyline::render(Some(&gpu), &mut pass);
        match pass.ops.last() {
            Some(PassOp::Draw { vertices, instances }) => {
                assert_eq!(*vertices, 6);
                assert_eq!(*instances as usize, n - 1);
            }
            other => panic!("expected a draw, found {:?}", other),
        }
    }
}

#[test]
fn vertex_buffer_holds_three_words_per_point() {
    let mut device = RenderDevice::new();
    let gpu = gpu_polyline_of(vec![point(1.5, -2.0, 0.25)], &mut device);
    assert_eq!(gpu.vertex_buffer.contents.len(), 12);
    let expected: Vec<u8> = [1.5f32, -2.0, 0.25]
        .iter()
        .flat_map(|f| f.to_bits().to_le_bytes())
        .collect();
    assert_eq!(gpu.vertex_buffer.contents, expected);
}

#[test]
fn polyline_bind_group_needs_a_dynamic_index() {
    let bind_group = PolylineBindGroup { value: 42 };
    let mut pass = TrackedRenderPass::new();
    let result = SetPolylineBindGroup::<1>::render(None, &bind_group, &mut pass);
    assert_eq!(result, RenderCommandResult::Failure);
    assert!(pass.ops.is_empty());

    let result = SetPolylineBindGroup::<1>::render(Some(3), &bind_group, &mut pass);
    assert_eq!(result, RenderCommandResult::Success);
    assert_eq!(
        pass.ops,
        vec![PassOp::SetBindGroup { index: 1, bind_group: 42, dynamic_offset: Some(3) }]
    );
}

#[test]
fn draw_sequence_binds_in_slot_order_then_draws() {
    let mut device = RenderDevice::new();
    let material = GpuPolylineMaterial::prepare_asset(&PolylineMaterial::default(), &mut device);
    let gpu = gpu_polyline_of(
        vec![point(0.0, 0.0, 0.0), point(1.0, 0.0, 0.0), point(1.0, 1.0, 0.0)],
        &mut device,
    );
    let _ = PolylinePipeline::new();
    let mut pass = TrackedRenderPass::new();
    let result = draw_polyline_material(
        7,
        64,
        &PolylineViewBindGroup { value: 100 },
        Some(2),
        &PolylineBindGroup { value: 101 },
        Some(&material),
        103,
        Some(&gpu),
        &mut pass,
    );
    assert_eq!(result, RenderCommandResult::Success);
    assert_eq!(
        pass.ops,
        vec![
            PassOp::SetRenderPipeline { id: 7 },
            PassOp::SetBindGroup { index: 0, bind_group: 100, dynamic_offset: Some(64) },
            PassOp::SetBindGroup { index: 1, bind_group: 101, dynamic_offset: Some(2) },
            PassOp::SetBindGroup { index: 2, bind_group: material.bind_group, dynamic_offset: None },
            PassOp::SetBindGroup { index: 3, bind_group: 103, dynamic_offset: None },
            PassOp::SetVertexBuffer { slot: 0, buffer: gpu.vertex_buffer.id, offset: 0, size: 24 },
            PassOp::SetVertexBuffer { slot: 1, buffer: gpu.vertex_buffer.id, offset: 12, size: 24 },
            PassOp::Draw { vertices: 6, instances: 2 },
        ]
    );
}

#[test]
fn draw_sequence_stops_at_a_missing_material() {
    let mut device = RenderDevice::new();
    let gpu = gpu_polyline_of(vec![point(0.0, 0.0, 0.0), point(1.0, 0.0, 0.0)], &mut device);
    let mut pass = TrackedRenderPass::new();
    let result = draw_polyline_material(
        0,
        0,
        &PolylineViewBindGroup { value: 1 },
        Some(0),
        &PolylineBindGroup { value: 2 },
        None,
        3,
        Some(&gpu),
        &mut pass,
    );
    assert_eq!(result, RenderCommandResult::Failure);
    // Recording stopped after the polyline bind group.
    assert_eq!(pass.ops.len(), 3);
}
