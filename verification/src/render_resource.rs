//! Plain-data stand-ins for the GPU objects the renderer configures.
//!
//! A host hands these descriptors to its graphics device; the renderer's
//! logic only decides their contents.  Buffers, bind groups and shaders
//! appear as numeric identifiers, and a render pass is a recorded list of
//! operations, so that what a frame submits can be stated exactly.

use vstd::prelude::*;

verus! {

/// Identifier of a pipeline held in a pipeline cache.
pub type CachedPipelineId = usize;

/// Identifier of a device buffer.
pub type BufferId = u64;

/// Identifier of a device bind group.
pub type BindGroupId = u64;

/// Identifier of a shader module.
pub type ShaderId = u64;

/// The four bind-group layouts the polyline pipelines use, in the slot
/// order the shaders declare them.
#[derive(Clone, Copy, Debug, PartialEq, Eq, Structural)]
pub enum BindGroupLayout {
    ViewLayout,
    PolylineLayout,
    MaterialLayout,
    HalfSpacesLayout,
}

/// Shader stage a binding is visible to.
#[derive(Clone, Copy, Debug, PartialEq, Eq, Structural)]
pub enum ShaderStage {
    Vertex,
    Fragment,
}

/// One entry of a bind-group layout: a uniform-buffer binding.
#[derive(Clone, Copy, Debug, PartialEq, Eq, Structural)]
pub struct BindGroupLayoutEntry {
    pub binding: u32,
    pub visibility: ShaderStage,
    pub has_dynamic_offset: bool,
}

/// The entries each layout asks the device for: a single uniform buffer,
/// dynamically indexed for the per-view and per-polyline slots, plain for
/// the material and half-space slots, fragment-visible only for the last.
pub fn layout_entries(layout: BindGroupLayout) -> (r: Vec<BindGroupLayoutEntry>)
    ensures
        r@ =~= seq![spec_layout_entry(layout)],
{
    let entry = match layout {
        BindGroupLayout::ViewLayout => BindGroupLayoutEntry {
            binding: 0,
            visibility: ShaderStage::Vertex,
            has_dynamic_offset: true,
        },
        BindGroupLayout::PolylineLayout => BindGroupLayoutEntry {
            binding: 0,
            visibility: ShaderStage::Vertex,
            has_dynamic_offset: true,
        },
        BindGroupLayout::MaterialLayout => BindGroupLayoutEntry {
            binding: 0,
            visibility: ShaderStage::Vertex,
            has_dynamic_offset: false,
        },
        BindGroupLayout::HalfSpacesLayout => BindGroupLayoutEntry {
            binding: 0,
            visibility: ShaderStage::Fragment,
            has_dynamic_offset: false,
        },
    };
    let mut entries: Vec<BindGroupLayoutEntry> = Vec::new();
    entries.push(entry);
    entries
}

/// The single entry of each layout.
pub open spec fn spec_layout_entry(layout: BindGroupLayout) -> BindGroupLayoutEntry {
    match layout {
        BindGroupLayout::ViewLayout => (BindGroupLayoutEntry {
            binding: 0,
            visibility: ShaderStage::Vertex,
            has_dynamic_offset: true,
        }),
        BindGroupLayout::PolylineLayout => (BindGroupLayoutEntry {
            binding: 0,
            visibility: ShaderStage::Vertex,
            has_dynamic_offset: true,
        }),
        BindGroupLayout::MaterialLayout => (BindGroupLayoutEntry {
            binding: 0,
            visibility: ShaderStage::Vertex,
            has_dynamic_offset: false,
        }),
        BindGroupLayout::HalfSpacesLayout => (BindGroupLayoutEntry {
            binding: 0,
            visibility: ShaderStage::Fragment,
            has_dynamic_offset: false,
        }),
    }
}

/// Blend state of a color target.
#[derive(Clone, Copy, Debug, PartialEq, Eq, Structural)]
pub enum BlendState {
    /// Fragments replace the target value.
    Replace,
    /// Standard alpha blending.
    AlphaBlending,
}

/// Texture formats the pipelines render to.
#[derive(Clone, Copy, Debug, PartialEq, Eq, Structural)]
pub enum TextureFormat {
    /// The default swapchain color format.
    Rgba8UnormSrgb,
    /// The HDR-capable color format.
    Rgba16Float,
    /// The depth-buffer format.
    Depth32Float,
}

/// Depth comparison; the renderer uses a reversed-Z convention.
#[derive(Clone, Copy, Debug, PartialEq, Eq, Structural)]
pub enum CompareFunction {
    Less,
    Greater,
}

/// Winding order of front faces.
#[derive(Clone, Copy, Debug, PartialEq, Eq, Structural)]
pub enum FrontFace {
    Ccw,
    Cw,
}

/// Which faces are culled.
#[derive(Clone, Copy, Debug, PartialEq, Eq, Structural)]
pub enum Face {
    Front,
    Back,
}

/// Primitive assembly topology.
#[derive(Clone, Copy, Debug, PartialEq, Eq, Structural)]
pub enum PrimitiveTopology {
    PointList,
    LineList,
    LineStrip,
    TriangleList,
    TriangleStrip,
}

/// Format of one vertex attribute.
#[derive(Clone, Copy, Debug, PartialEq, Eq, Structural)]
pub enum VertexFormat {
    Float32,
    Float32x2,
    Float32x3,
    Float32x4,
}

/// Byte size of a vertex format.
pub open spec fn spec_vertex_format_size(format: VertexFormat) -> u64 {
    match format {
        VertexFormat::Float32 => 4,
        VertexFormat::Float32x2 => 8,
        VertexFormat::Float32x3 => 12,
        VertexFormat::Float32x4 => 16,
    }
}

impl VertexFormat {
    /// Byte size of the format.
    pub fn size(self) -> (r: u64)
        ensures
            r == spec_vertex_format_size(self),
    {
        match self {
            VertexFormat::Float32 => 4,
            VertexFormat::Float32x2 => 8,
            VertexFormat::Float32x3 => 12,
            VertexFormat::Float32x4 => 16,
        }
    }
}

/// Whether a vertex buffer advances per vertex or per instance.
#[derive(Clone, Copy, Debug, PartialEq, Eq, Structural)]
pub enum VertexStepMode {
    Vertex,
    Instance,
}

/// One vertex attribute of a vertex-buffer layout.
#[derive(Clone, Copy, Debug, PartialEq, Eq, Structural)]
pub struct VertexAttribute {
    pub format: VertexFormat,
    pub offset: u64,
    pub shader_location: u32,
}

/// Layout of one bound vertex buffer.
#[derive(Clone, Debug, PartialEq, Eq)]
pub struct VertexBufferLayout {
    pub array_stride: u64,
    pub step_mode: VertexStepMode,
    pub attributes: Vec<VertexAttribute>,
}

/// Preprocessor switches handed to the polyline shader.
#[derive(Clone, Copy, Debug, PartialEq, Eq, Structural)]
pub enum ShaderDef {
    PolylinePerspective,
    PolylineClipping,
}

/// Label naming a pipeline variant.
#[derive(Clone, Copy, Debug, PartialEq, Eq, Structural)]
pub enum PipelineLabel {
    OpaquePolyline,
    TransparentPolyline,
}

/// Vertex-stage configuration.
#[derive(Clone, Debug, PartialEq, Eq)]
pub struct VertexState {
    pub shader: ShaderId,
    pub shader_defs: Vec<ShaderDef>,
    pub buffers: Vec<VertexBufferLayout>,
}

/// One color target of the fragment stage.
#[derive(Clone, Copy, Debug, PartialEq, Eq, Structural)]
pub struct ColorTargetState {
    pub format: TextureFormat,
    pub blend: Option<BlendState>,
}

/// Fragment-stage configuration.
#[derive(Clone, Debug, PartialEq, Eq)]
pub struct FragmentState {
    pub shader: ShaderId,
    pub shader_defs: Vec<ShaderDef>,
    pub targets: Vec<ColorTargetState>,
}

/// Depth-buffer configuration.
#[derive(Clone, Copy, Debug, PartialEq, Eq, Structural)]
pub struct DepthStencilState {
    pub format: TextureFormat,
    pub depth_write_enabled: bool,
    pub depth_compare: CompareFunction,
}

/// Multisampling configuration.
#[derive(Clone, Copy, Debug, PartialEq, Eq, Structural)]
pub struct MultisampleState {
    pub count: u32,
}

/// Primitive-assembly configuration.
#[derive(Clone, Copy, Debug, PartialEq, Eq, Structural)]
pub struct PrimitiveState {
    pub topology: PrimitiveTopology,
    pub front_face: FrontFace,
    pub cull_mode: Option<Face>,
}

/// A fully specialized pipeline configuration, ready for compilation by a
/// graphics device.
#[derive(Clone, Debug, PartialEq, Eq)]
pub struct RenderPipelineDescriptor {
    pub label: PipelineLabel,
    pub vertex: VertexState,
    pub fragment: Option<FragmentState>,
    pub layout: Vec<BindGroupLayout>,
    pub primitive: PrimitiveState,
    pub depth_stencil: Option<DepthStencilState>,
    pub multisample: MultisampleState,
}

/// A device buffer, carried with the contents it was created from.
#[derive(Clone, Debug, PartialEq, Eq)]
pub struct Buffer {
    pub id: BufferId,
    pub contents: Vec<u8>,
}

impl Buffer {
    /// Size of the buffer in bytes.
    pub fn size(&self) -> (r: u64)
        requires
            self.contents@.len() <= u64::MAX,
        ensures
            r == self.contents@.len(),
    {
        self.contents.len() as u64
    }
}

/// The graphics device as the renderer sees it: a source of fresh buffer
/// and bind-group identifiers.  Identifiers are handed out in order, so
/// two resources created by one device never collide.
#[derive(Clone, Debug, PartialEq, Eq, Structural)]
pub struct RenderDevice {
    pub next_id: u64,
}

impl RenderDevice {
    /// A device that has handed out no identifiers yet.
    pub fn new() -> (r: Self)
        ensures
            r.next_id == 0,
    {
        RenderDevice { next_id: 0 }
    }

    /// Create an empty buffer of a given byte size, returning its id.
    pub fn create_buffer(&mut self, _size: u64) -> (r: BufferId)
        requires
            old(self).next_id < u64::MAX,
        ensures
            r == old(self).next_id,
            final (self).next_id == old(self).next_id + 1,
    {
        let id = self.next_id;
        self.next_id = self.next_id + 1;
        id
    }

    /// Create a buffer holding `contents`.
    pub fn create_buffer_with_data(&mut self, contents: Vec<u8>) -> (r: Buffer)
        requires
            old(self).next_id < u64::MAX,
        ensures
            r.id == old(self).next_id,
            r.contents@ =~= contents@,
            final (self).next_id == old(self).next_id + 1,
    {
        let id = self.next_id;
        self.next_id = self.next_id + 1;
        Buffer { id, contents }
    }

    /// Create a bind group over one buffer under the given layout.
    pub fn create_bind_group(&mut self, _layout: BindGroupLayout, _buffer: BufferId) -> (r:
        BindGroupId)
        requires
            old(self).next_id < u64::MAX,
        ensures
            r == old(self).next_id,
            final (self).next_id == old(self).next_id + 1,
    {
        let id = self.next_id;
        self.next_id = self.next_id + 1;
        id
    }
}

/// Outcome of one draw-stage command.
#[derive(Clone, Copy, Debug, PartialEq, Eq, Structural)]
pub enum RenderCommandResult {
    Success,
    Failure,
}

/// One operation recorded into a render pass.  The polyline draw stage
/// binds at most one dynamic offset per bind group, so the offset list
/// is an `Option`.
#[derive(Clone, Copy, Debug, PartialEq, Eq, Structural)]
pub enum PassOp {
    SetRenderPipeline { id: CachedPipelineId },
    SetBindGroup { index: u32, bind_group: BindGroupId, dynamic_offset: Option<u32> },
    SetVertexBuffer { slot: u32, buffer: BufferId, offset: u64, size: u64 },
    Draw { vertices: u32, instances: u32 },
}

/// A render pass that records the operations submitted to it, in order.
#[derive(Clone, Debug, PartialEq, Eq)]
pub struct TrackedRenderPass {
    pub ops: Vec<PassOp>,
}

impl TrackedRenderPass {
    /// An empty pass with nothing recorded.
    pub fn new() -> (r: Self)
        ensures
            r.ops@ =~= Seq::<PassOp>::empty(),
    {
        TrackedRenderPass { ops: Vec::new() }
    }

    /// Record a pipeline switch.
    pub fn set_render_pipeline(&mut self, id: CachedPipelineId)
        ensures
            final (self).ops@ =~= old(self).ops@.push((PassOp::SetRenderPipeline { id })),
    {
        self.ops.push(PassOp::SetRenderPipeline { id });
    }

    /// Record a bind-group binding with its dynamic offset, if any.
    pub fn set_bind_group(
        &mut self,
        index: u32,
        bind_group: BindGroupId,
        dynamic_offset: Option<u32>,
    )
        ensures
            final (self).ops@ =~= old(self).ops@.push(
                (PassOp::SetBindGroup { index, bind_group, dynamic_offset }),
            ),
    {
        self.ops.push(PassOp::SetBindGroup { index, bind_group, dynamic_offset });
    }

    /// Record a vertex-buffer binding of `size` bytes starting at `offset`.
    pub fn set_vertex_buffer(&mut self, slot: u32, buffer: BufferId, offset: u64, size: u64)
        ensures
            final (self).ops@ =~= old(self).ops@.push(
                (PassOp::SetVertexBuffer { slot, buffer, offset, size }),
            ),
    {
        self.ops.push(PassOp::SetVertexBuffer { slot, buffer, offset, size });
    }

    /// Record an instanced draw of `vertices` vertices and `instances`
    /// instances, both starting at zero.
    pub fn draw(&mut self, vertices: u32, instances: u32)
        ensures
            final (self).ops@ =~= old(self).ops@.push((PassOp::Draw { vertices, instances })),
    {
        self.ops.push(PassOp::Draw { vertices, instances });
    }
}

/// Little-endian bytes of a word sequence, word by word.
pub open spec fn spec_words_to_le_bytes(words: Seq<u32>) -> Seq<u8>
    decreases words.len(),
{
    if words.len() == 0 {
        Seq::empty()
    } else {
        spec_words_to_le_bytes(words.drop_last()) + vstd::bytes::spec_u32_to_le_bytes(
            words.last(),
        )
    }
}

/// The byte form of a word sequence is four bytes per word, and the bytes
/// of word `i` stand at offset `4 * i`.
pub proof fn lemma_words_to_le_bytes_index(words: Seq<u32>)
    ensures
        spec_words_to_le_bytes(words).len() == 4 * words.len(),
        forall|i: int|
            0 <= i < words.len() ==> #[trigger] spec_words_to_le_bytes(words).subrange(
                4 * i,
                4 * i + 4,
            ) =~= vstd::bytes::spec_u32_to_le_bytes(words[i]),
    decreases words.len(),
{
    vstd::bytes::lemma_auto_spec_u32_to_from_le_bytes();
    if words.len() > 0 {
        lemma_words_to_le_bytes_index(words.drop_last());
        let prefix = spec_words_to_le_bytes(words.drop_last());
        let full = spec_words_to_le_bytes(words);
        assert forall|i: int| 0 <= i < words.len() implies #[trigger] full.subrange(
            4 * i,
            4 * i + 4,
        ) =~= vstd::bytes::spec_u32_to_le_bytes(words[i]) by {
            if i < words.len() - 1 {
                assert(full.subrange(4 * i, 4 * i + 4) =~= prefix.subrange(4 * i, 4 * i + 4));
                assert(words.drop_last()[i] == words[i]);
            } else {
                assert(full.subrange(4 * i, 4 * i + 4) =~= vstd::bytes::spec_u32_to_le_bytes(
                    words.last(),
                ));
            }
        }
    }
}

/// Serialize words into the little-endian byte stream a uniform or vertex
/// buffer upload expects.
pub fn words_to_le_bytes(words: &Vec<u32>) -> (r: Vec<u8>)
    ensures
        r@ =~= spec_words_to_le_bytes(words@),
        r@.len() == 4 * words@.len(),
{
    proof {
        lemma_words_to_le_bytes_index(words@);
    }
    let mut bytes: Vec<u8> = Vec::new();
    let mut i: usize = 0;
    while i < words.len()
        invariant
            i <= words@.len(),
            bytes@ =~= spec_words_to_le_bytes(words@.take(i as int)),
            bytes@.len() == 4 * i,
        decreases words@.len() - i,
    {
        let mut word_bytes = vstd::bytes::u32_to_le_bytes(words[i]);
        bytes.append(&mut word_bytes);
        proof {
            assert(words@.take(i + 1).drop_last() =~= words@.take(i as int));
            assert(words@.take(i + 1).last() == words@[i as int]);
        }
        i = i + 1;
    }
    proof {
        assert(words@.take(words@.len() as int) =~= words@);
    }
    bytes
}

} // verus!
