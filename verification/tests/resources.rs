use polyline_render::global_render_resources_node::{
    get_aligned_uniform_size, global_render_resources_node_system, CopyCommand,
    GlobalRenderResourcesNode,
};
use polyline_render::polyline::{
    prepare_polyline_bind_group, prepare_polyline_view_bind_groups, PolylinePipeline,
};
use polyline_render::render_resource::RenderDevice;

#[test]
fn aligned_uniform_sizes() {
    assert_eq!(get_aligned_uniform_size(0, 256), 0);
    assert_eq!(get_aligned_uniform_size(1, 256), 256);
    assert_eq!(get_aligned_uniform_size(256, 256), 256);
    assert_eq!(get_aligned_uniform_size(257, 256), 512);
    assert_eq!(get_aligned_uniform_size(7, 4), 8);
}

#[test]
fn node_starts_empty() {
    let node = GlobalRenderResourcesNode::new();
    assert!(node.command_queue.is_empty());
    assert_eq!(node.staging_buffer, None);
    assert_eq!(node.target_buffer, None);
    assert!(node.update().is_empty());
}

#[test]
fn unchanged_resources_upload_nothing() {
    let mut node = GlobalRenderResourcesNode::new();
    let mut device = RenderDevice::new();
    let payloads = vec![vec![1u8, 2, 3]];
    let upload = global_render_resources_node_system(&mut node, false, &payloads, 4, &mut device);
    assert!(upload.is_none());
    assert!(node.command_queue.is_empty());
    assert_eq!(device.next_id, 0);
}

#[test]
fn changed_resources_are_laid_out_at_the_alignment() {
    let mut node = GlobalRenderResourcesNode::new();
    let mut device = RenderDevice::new();
    let payloads = vec![vec![1u8, 2, 3], vec![9u8, 8, 7, 6, 5]];
    let upload =
        global_render_resources_node_system(&mut node, true, &payloads, 4, &mut device).unwrap();

    // Each payload at its aligned offset, zero-padded to the boundary.
    assert_eq!(upload.staging_bytes, vec![1, 2, 3, 0, 9, 8, 7, 6, 5, 0, 0, 0]);
    assert_eq!(upload.bindings.len(), 2);
    assert_eq!(upload.bindings[0].offset, 0);
    assert_eq!(upload.bindings[0].size, 4);
    assert_eq!(upload.bindings[1].offset, 4);
    assert_eq!(upload.bindings[1].size, 8);

    // A staging buffer and a target buffer were created, and one
    // whole-buffer copy was queued.
    assert_eq!(node.staging_buffer, Some((0, 12)));
    assert_eq!(node.target_buffer, Some((1, 12)));
    assert_eq!(upload.bindings[0].buffer, 1);
    assert_eq!(
        node.command_queue,
        vec![CopyCommand { src_buffer: 0, src_offset: 0, dst_buffer: 1, dst_offset: 0, size: 12 }]
    );
    assert_eq!(node.update().len(), 1);
}

#[test]
fn buffers_are_reused_while_the_total_size_holds() {
    let mut node = GlobalRenderResourcesNode::new();
    let mut device = RenderDevice::new();
    let payloads = vec![vec![0u8; 6]];
    global_render_resources_node_system(&mut node, true, &payloads, 4, &mut device);
    assert_eq!(node.staging_buffer, Some((0, 8)));
    assert_eq!(node.target_buffer, Some((1, 8)));

    // Same total: both buffers kept.
    let payloads = vec![vec![7u8; 5]];
    global_render_resources_node_system(&mut node, true, &payloads, 4, &mut device);
    assert_eq!(node.staging_buffer, Some((0, 8)));
    assert_eq!(node.target_buffer, Some((1, 8)));

    // Larger total: both buffers replaced with fresh ones.
    let payloads = vec![vec![7u8; 9]];
    global_render_resources_node_system(&mut node, true, &payloads, 4, &mut device);
    assert_eq!(node.staging_buffer, Some((2, 12)));
    assert_eq!(node.target_buffer, Some((3, 12)));
    assert_eq!(node.command_queue.len(), 3);
}

#[test]
fn polyline_bind_group_needs_the_uniform_binding() {
    let mut device = RenderDevice::new();
    let pipeline = PolylinePipeline::new();
    assert!(prepare_polyline_bind_group(&mut device, &pipeline, None).is_none());
    let bind_group = prepare_polyline_bind_group(&mut device, &pipeline, Some(5)).unwrap();
    assert_eq!(bind_group.value, 0);
}

#[test]
fn view_bind_groups_come_one_per_view() {
    let mut device = RenderDevice::new();
    let pipeline = PolylinePipeline::new();
    let views = vec![10u64, 20, 30];
    let groups = prepare_polyline_view_bind_groups(&mut device, &pipeline, &views, 77);
    assert_eq!(groups.len(), 3);
    assert_eq!(groups[0].0, 10);
    assert_eq!(groups[2].0, 30);
    assert_eq!(device.next_id, 3);
}
