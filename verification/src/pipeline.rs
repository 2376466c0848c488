//! The fixed pipeline pair for hosts without key specialization: one
//! pipeline for the line segments and one for the miter joins drawn at
//! interior vertices.  Both rasterize camera-facing triangle lists with
//! no culling; the host compiles their shader modules and registers the
//! descriptors under the well-known handles.

use vstd::prelude::*;

use crate::render_resource::{Face, FrontFace, PrimitiveState, PrimitiveTopology};

verus! {

/// Handle under which the segment pipeline's descriptor is registered.
pub const POLYLINE_PIPELINE_HANDLE: u64 = 0x6e33_9e9d_ad27_9849;

/// Handle under which the miter-join pipeline's descriptor is
/// registered.
pub const MITER_JOIN_PIPELINE_HANDLE: u64 = 0x468_f1a2_db6e_312a;

/// Which of the two fixed pipelines a descriptor configures.
#[derive(Clone, Copy, Debug, PartialEq, Eq, Structural)]
pub enum PipelineName {
    Polyline,
    MiterJoin,
}

/// A reference to one of the registered pipelines.
#[derive(Clone, Copy, Debug, PartialEq, Eq, Structural)]
pub struct RenderPipeline {
    pub pipeline: u64,
}

/// Descriptor of one fixed pipeline: its name and primitive assembly.
#[derive(Clone, Copy, Debug, PartialEq, Eq, Structural)]
pub struct PipelineDescriptor {
    pub name: PipelineName,
    pub primitive: PrimitiveState,
}

/// The primitive state both pipelines share: triangle lists wound
/// counter-clockwise, with no culling — every face always faces the
/// camera.
pub open spec fn spec_polyline_primitive_state() -> PrimitiveState {
    PrimitiveState {
        topology: PrimitiveTopology::TriangleList,
        front_face: FrontFace::Ccw,
        cull_mode: None::<Face>,
    }
}

/// A reference to the segment pipeline.
pub fn new_polyline_pipeline() -> (r: RenderPipeline)
    ensures
        r.pipeline == POLYLINE_PIPELINE_HANDLE,
{
    RenderPipeline { pipeline: POLYLINE_PIPELINE_HANDLE }
}

/// A reference to the miter-join pipeline.
pub fn new_miter_join_pipeline() -> (r: RenderPipeline)
    ensures
        r.pipeline == MITER_JOIN_PIPELINE_HANDLE,
{
    RenderPipeline { pipeline: MITER_JOIN_PIPELINE_HANDLE }
}

/// Register both pipeline descriptors under their handles, in order:
/// first the segment pipeline, then the miter-join pipeline.
pub fn build_pipelines(pipelines: &mut Vec<(u64, PipelineDescriptor)>)
    ensures
        final (pipelines)@ =~= old(pipelines)@ + seq![
            (
                POLYLINE_PIPELINE_HANDLE,
                (PipelineDescriptor {
                    name: PipelineName::Polyline,
                    primitive: spec_polyline_primitive_state(),
                }),
            ),
            (
                MITER_JOIN_PIPELINE_HANDLE,
                (PipelineDescriptor {
                    name: PipelineName::MiterJoin,
                    primitive: spec_polyline_primitive_state(),
                }),
            ),
        ],
{
    let pipeline = build_polyline_pipeline();
    pipelines.push((POLYLINE_PIPELINE_HANDLE, pipeline));
    let pipeline = build_miter_join_pipeline();
    pipelines.push((MITER_JOIN_PIPELINE_HANDLE, pipeline));
}

/// The segment pipeline's descriptor.
fn build_polyline_pipeline() -> (r: PipelineDescriptor)
    ensures
        r.name == PipelineName::Polyline,
        r.primitive == spec_polyline_primitive_state(),
{
    PipelineDescriptor {
        name: PipelineName::Polyline,
        primitive: PrimitiveState {
            topology: PrimitiveTopology::TriangleList,
            front_face: FrontFace::Ccw,
            cull_mode: None,
        },
    }
}

/// The miter-join pipeline's descriptor.
fn build_miter_join_pipeline() -> (r: PipelineDescriptor)
    ensures
        r.name == PipelineName::MiterJoin,
        r.primitive == spec_polyline_primitive_state(),
{
    PipelineDescriptor {
        name: PipelineName::MiterJoin,
        primitive: PrimitiveState {
            topology: PrimitiveTopology::TriangleList,
            front_face: FrontFace::Ccw,
            cull_mode: None,
        },
    }
}

} // verus!
