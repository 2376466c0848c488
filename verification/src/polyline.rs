//! Polylines, their GPU-side form, and the render-pipeline key.

use vstd::prelude::*;

use crate::render_resource::{
    spec_words_to_le_bytes, words_to_le_bytes, BindGroupId, BindGroupLayout, BlendState, Buffer,
    ColorTargetState, CompareFunction, DepthStencilState, Face, FragmentState, FrontFace,
    MultisampleState, PassOp, PipelineLabel, PrimitiveState, PrimitiveTopology,
    RenderCommandResult, RenderDevice, RenderPipelineDescriptor, ShaderDef, ShaderId, TextureFormat,
    TrackedRenderPass, VertexAttribute, VertexBufferLayout, VertexFormat, VertexState,
    VertexStepMode,
};

verus! {

/// Bit marking a pipeline variant with perspective-scaled line width.
pub const PERSPECTIVE_BIT: u32 = 0x1;

/// Bit marking a pipeline variant drawn in the transparent main pass.
pub const TRANSPARENT_MAIN_PASS_BIT: u32 = 0x2;

/// Bit marking a pipeline variant that renders to an HDR target.
pub const HDR_BIT: u32 = 0x4;

/// Bit marking a pipeline variant with half-space clipping enabled.
pub const CLIPPING_BIT: u32 = 0x8;

/// Mask for the MSAA sample-count exponent stored in the key's high bits.
pub const MSAA_MASK_BITS: u32 = 0b111;

/// Shift placing the MSAA exponent in the key's highest three bits.
pub const MSAA_SHIFT_BITS: u32 = 29;

/// Memoization key for compiled pipeline variants.
///
/// Encodes {perspective, transparent, HDR target, clipping} as low bits and
/// the MSAA sample count as `log2(samples)` in the highest three bits.  Two
/// equal keys must always select behaviorally identical pipeline state.
#[derive(Clone, Copy, Debug, PartialEq, Eq, Hash, Structural)]
pub struct PolylinePipelineKey {
    pub bits: u32,
}

/// The MSAA bits a sample count is stored as: its trailing-zero count
/// (the exponent, for a power of two), masked to three bits, shifted high.
pub open spec fn spec_msaa_bits(msaa_samples: u32) -> u32 {
    (vstd::std_specs::bits::u32_trailing_zeros(msaa_samples) & MSAA_MASK_BITS) << MSAA_SHIFT_BITS
}

/// The sample count a key decodes to: two to the stored exponent.
pub open spec fn spec_msaa_samples(bits: u32) -> u32 {
    1u32 << ((bits >> MSAA_SHIFT_BITS) & MSAA_MASK_BITS)
}

impl PolylinePipelineKey {
    /// The empty key: no option bits, MSAA exponent zero (one sample).
    pub fn none() -> (r: Self)
        ensures
            r.bits == 0,
    {
        PolylinePipelineKey { bits: 0 }
    }

    /// The raw bit encoding of the key.
    pub fn bits(&self) -> (r: u32)
        ensures
            r == self.bits,
    {
        self.bits
    }

    /// Key with only the perspective bit set.
    pub fn perspective() -> (r: Self)
        ensures
            r.bits == PERSPECTIVE_BIT,
    {
        PolylinePipelineKey { bits: PERSPECTIVE_BIT }
    }

    /// Key with only the transparent-main-pass bit set.
    pub fn transparent_main_pass() -> (r: Self)
        ensures
            r.bits == TRANSPARENT_MAIN_PASS_BIT,
    {
        PolylinePipelineKey { bits: TRANSPARENT_MAIN_PASS_BIT }
    }

    /// Key with only the HDR bit set.
    pub fn hdr() -> (r: Self)
        ensures
            r.bits == HDR_BIT,
    {
        PolylinePipelineKey { bits: HDR_BIT }
    }

    /// Key with only the clipping bit set.
    pub fn clipping() -> (r: Self)
        ensures
            r.bits == CLIPPING_BIT,
    {
        PolylinePipelineKey { bits: CLIPPING_BIT }
    }

    /// Whether every bit of `other` is set in `self`.
    pub fn contains(&self, other: Self) -> (r: bool)
        ensures
            r == (self.bits & other.bits == other.bits),
    {
        self.bits & other.bits == other.bits
    }

    /// The union of two keys.
    pub fn union(self, other: Self) -> (r: Self)
        ensures
            r.bits == self.bits | other.bits,
    {
        PolylinePipelineKey { bits: self.bits | other.bits }
    }

    /// Encode an MSAA sample count into the key's highest three bits.
    ///
    /// The count is expected to be a power of two; its exponent is stored,
    /// truncated to three bits (so counts above 128 wrap).
    pub fn from_msaa_samples(msaa_samples: u32) -> (r: Self)
        ensures
            r.bits == spec_msaa_bits(msaa_samples),
    {
        let msaa_bits = (msaa_samples.trailing_zeros() & MSAA_MASK_BITS) << MSAA_SHIFT_BITS;
        PolylinePipelineKey { bits: msaa_bits }
    }

    /// Decode the MSAA sample count stored in the key.
    pub fn msaa_samples(&self) -> (r: u32)
        ensures
            r == spec_msaa_samples(self.bits),
    {
        let bits = self.bits;
        proof {
            assert((bits >> MSAA_SHIFT_BITS) & MSAA_MASK_BITS < 32u32) by (bit_vector);
        }
        1u32 << ((bits >> MSAA_SHIFT_BITS) & MSAA_MASK_BITS)
    }

    /// Key for a view's target format: the HDR bit when `hdr` holds.
    pub fn from_hdr(hdr: bool) -> (r: Self)
        ensures
            r.bits == if hdr {
                HDR_BIT
            } else {
                0u32
            },
    {
        if hdr {
            PolylinePipelineKey { bits: HDR_BIT }
        } else {
            PolylinePipelineKey { bits: 0 }
        }
    }
}

/// Encoding and decoding the MSAA sample count round-trips: for any
/// power-of-two count up to 128 (three exponent bits), a key built with
/// `from_msaa_samples` reports exactly that count from `msaa_samples`.
pub proof fn lemma_msaa_samples_round_trip(msaa_samples: u32)
    requires
        1 <= msaa_samples <= 128,
        msaa_samples & ((msaa_samples - 1) as u32) == 0,
    ensures
        spec_msaa_samples(spec_msaa_bits(msaa_samples)) == msaa_samples,
{
    vstd::std_specs::bits::axiom_u32_trailing_zeros(msaa_samples);
    let tz = vstd::std_specs::bits::u32_trailing_zeros(msaa_samples);
    let b = spec_msaa_bits(msaa_samples);
    assert(1u32 << ((b >> MSAA_SHIFT_BITS) & MSAA_MASK_BITS) == msaa_samples) by (bit_vector)
        requires
            1 <= msaa_samples <= 128,
            msaa_samples & ((msaa_samples - 1) as u32) == 0,
            tz < 32,
            (msaa_samples >> tz) & 1u32 == 1u32,
            b == (tz & MSAA_MASK_BITS) << MSAA_SHIFT_BITS,
    ;
}

/// Whether `flag`'s bits are all set in `bits`.
pub open spec fn spec_contains(bits: u32, flag: u32) -> bool {
    bits & flag == flag
}

/// Bit pattern of the 32-bit float one, the diagonal of an identity
/// transform.
pub const F32_ONE_BITS: u32 = 0x3F80_0000;

/// Identifier under which the host registers the polyline shader module.
pub const SHADER_HANDLE: ShaderId = 0xb180_bfe9_10c8_48fe;

/// A 3-D position; each coordinate is an opaque 32-bit word that the
/// pipeline moves into the vertex buffer verbatim.
#[derive(Clone, Copy, Debug, PartialEq, Eq, Structural)]
pub struct Point3 {
    pub x: u32,
    pub y: u32,
    pub z: u32,
}

impl Point3 {
    /// The point's coordinates in buffer order.
    pub open spec fn spec_coord(self, j: int) -> u32 {
        if j == 0 {
            self.x
        } else if j == 1 {
            self.y
        } else {
            self.z
        }
    }
}

/// An ordered sequence of 3-D points rendered as a continuous thick
/// line.  Fewer than two points is degenerate and renders nothing.
#[derive(Clone, Debug, PartialEq)]
pub struct Polyline {
    pub vertices: Vec<Point3>,
}

impl Default for Polyline {
    /// The empty polyline, which renders nothing.
    fn default() -> (r: Self)
        ensures
            r.vertices@ =~= Seq::<Point3>::empty(),
    {
        Polyline { vertices: Vec::new() }
    }
}

/// Reference to a polyline asset held by the host's asset store.
#[derive(Clone, Copy, Debug, Default, PartialEq, Eq, Structural)]
pub struct PolylineHandle(pub u64);

/// A 4-by-4 world transform in column-major order, each element an
/// opaque 32-bit word.
#[derive(Clone, Copy, Debug, PartialEq, Eq)]
pub struct Mat4 {
    pub words: [u32; 16],
}

/// The identity transform's words: float one on the diagonal.
pub open spec fn spec_identity_words() -> Seq<u32> {
    seq![
        F32_ONE_BITS,
        0u32,
        0u32,
        0u32,
        0u32,
        F32_ONE_BITS,
        0u32,
        0u32,
        0u32,
        0u32,
        F32_ONE_BITS,
        0u32,
        0u32,
        0u32,
        0u32,
        F32_ONE_BITS,
    ]
}

impl Mat4 {
    /// The identity transform.
    pub fn identity() -> (r: Self)
        ensures
            r.words@ =~= spec_identity_words(),
    {
        Mat4 {
            words: [
                F32_ONE_BITS,
                0u32,
                0u32,
                0u32,
                0u32,
                F32_ONE_BITS,
                0u32,
                0u32,
                0u32,
                0u32,
                F32_ONE_BITS,
                0u32,
                0u32,
                0u32,
                0u32,
                F32_ONE_BITS,
            ],
        }
    }
}

/// Everything a scene entity needs to render a polyline: the geometry
/// and material references, its transforms, and its visibility flags.
#[derive(Clone, Copy, Debug, PartialEq)]
pub struct PolylineBundle {
    pub polyline: PolylineHandle,
    pub material: crate::material::PolylineMaterialHandle,
    pub transform: Mat4,
    pub global_transform: Mat4,
    /// User indication of whether the entity is visible.
    pub visibility: bool,
    /// Whether the entity is visible given its ancestors' visibility.
    pub inherited_visibility: bool,
    /// Computed per view each frame by visibility culling; an entity
    /// starts hidden until the first culling pass runs.
    pub view_visibility: bool,
}

impl Default for PolylineBundle {
    /// Null handles, identity transforms, visible until culling says
    /// otherwise.
    fn default() -> (r: Self)
        ensures
            r.polyline == PolylineHandle(0),
            r.material == crate::material::PolylineMaterialHandle(0),
            r.transform.words@ =~= spec_identity_words(),
            r.global_transform.words@ =~= spec_identity_words(),
            r.visibility,
            r.inherited_visibility,
            !r.view_visibility,
    {
        PolylineBundle {
            polyline: PolylineHandle(0),
            material: crate::material::PolylineMaterialHandle(0),
            transform: Mat4::identity(),
            global_transform: Mat4::identity(),
            visibility: true,
            inherited_visibility: true,
            view_visibility: false,
        }
    }
}

/// The per-entity, per-frame uniform: the entity's world transform,
/// re-extracted every frame.
#[derive(Clone, Copy, Debug, PartialEq, Eq)]
pub struct PolylineUniform {
    pub transform: Mat4,
}

/// One scene entity as the extraction stage sees it: its visibility
/// flags, world transform, and polyline reference.
#[derive(Clone, Copy, Debug, PartialEq)]
pub struct PolylineEntity {
    pub entity: u64,
    pub inherited_visibility: bool,
    pub view_visibility: bool,
    pub transform: Mat4,
    pub handle: PolylineHandle,
}

/// One entity snapshot handed on to the render stages.
#[derive(Clone, Copy, Debug, PartialEq)]
pub struct ExtractedPolyline {
    pub entity: u64,
    pub handle: PolylineHandle,
    pub uniform: PolylineUniform,
}

impl PolylineEntity {
    /// An entity is extracted only when both visibility flags hold.
    pub open spec fn spec_visible(self) -> bool {
        self.inherited_visibility && self.view_visibility
    }

    /// The snapshot taken of a visible entity.
    pub open spec fn spec_extracted(self) -> ExtractedPolyline {
        ExtractedPolyline {
            entity: self.entity,
            handle: self.handle,
            uniform: PolylineUniform { transform: self.transform },
        }
    }
}

/// What extraction produces: the visible entities, in query order, each
/// snapshotted; invisible entities are dropped entirely.
pub open spec fn spec_extract(query: Seq<PolylineEntity>) -> Seq<ExtractedPolyline>
    decreases query.len(),
{
    if query.len() == 0 {
        Seq::empty()
    } else {
        spec_extract(query.drop_last()) + if query.last().spec_visible() {
            seq![query.last().spec_extracted()]
        } else {
            Seq::empty()
        }
    }
}

/// The per-frame extraction stage: snapshot every visible polyline
/// entity's transform and handle, skipping invisible entities as a hard
/// filter.
pub fn extract_polylines(query: &Vec<PolylineEntity>) -> (r: Vec<ExtractedPolyline>)
    ensures
        r@ =~= spec_extract(query@),
{
    let mut values: Vec<ExtractedPolyline> = Vec::new();
    let mut i: usize = 0;
    while i < query.len()
        invariant
            i <= query@.len(),
            values@ =~= spec_extract(query@.take(i as int)),
        decreases query@.len() - i,
    {
        let e = query[i];
        if e.inherited_visibility && e.view_visibility {
            values.push(
                ExtractedPolyline {
                    entity: e.entity,
                    handle: e.handle,
                    uniform: PolylineUniform { transform: e.transform },
                },
            );
        }
        proof {
            assert(query@.take(i + 1).drop_last() =~= query@.take(i as int));
            assert(query@.take(i + 1).last() == query@[i as int]);
        }
        i = i + 1;
    }
    proof {
        assert(query@.take(query@.len() as int) =~= query@);
    }
    values
}

/// Extraction keeps nothing of an invisible entity: if no entity of the
/// query is visible, nothing is extracted.
pub proof fn lemma_extract_none_visible(query: Seq<PolylineEntity>)
    requires
        forall|i: int| 0 <= i < query.len() ==> !(#[trigger] query[i]).spec_visible(),
    ensures
        spec_extract(query).len() == 0,
    decreases query.len(),
{
    if query.len() > 0 {
        lemma_extract_none_visible(query.drop_last());
    }
}

/// Extraction keeps every visible entity, in query order.
pub proof fn lemma_extract_all_visible(query: Seq<PolylineEntity>)
    requires
        forall|i: int| 0 <= i < query.len() ==> (#[trigger] query[i]).spec_visible(),
    ensures
        spec_extract(query).len() == query.len(),
        forall|i: int|
            0 <= i < query.len() ==> #[trigger] spec_extract(query)[i]
                == query[i].spec_extracted(),
    decreases query.len(),
{
    if query.len() > 0 {
        lemma_extract_all_visible(query.drop_last());
    }
}

/// The words of a vertex sequence in buffer order: three coordinate
/// words per point.
pub open spec fn spec_vertex_words(vertices: Seq<Point3>) -> Seq<u32> {
    Seq::new(3 * vertices.len(), |i: int| vertices[i / 3].spec_coord(i % 3))
}

/// The GPU representation of a polyline: its device vertex buffer and a
/// cached vertex count.  Well-formed when the buffer holds exactly
/// twelve bytes — three little-endian words — per vertex.
#[derive(Clone, Debug, PartialEq)]
pub struct GpuPolyline {
    pub vertex_buffer: Buffer,
    pub vertex_count: u32,
}

impl GpuPolyline {
    /// The buffer holds exactly twelve bytes per counted vertex.
    pub open spec fn spec_wf(self) -> bool {
        self.vertex_buffer.contents@.len() == 12 * self.vertex_count
    }

    /// Upload a polyline: serialize its points into a fresh device
    /// vertex buffer and cache the vertex count.  Rerun whenever the
    /// source polyline's content changed.
    pub fn prepare_asset(polyline: &Polyline, render_device: &mut RenderDevice) -> (r: GpuPolyline)
        requires
            polyline.vertices@.len() <= u32::MAX,
            old(render_device).next_id < u64::MAX,
        ensures
            r.vertex_count == polyline.vertices@.len(),
            r.vertex_buffer.contents@ =~= spec_words_to_le_bytes(
                spec_vertex_words(polyline.vertices@),
            ),
            r.spec_wf(),
            r.vertex_buffer.id == old(render_device).next_id,
            final (render_device).next_id == old(render_device).next_id + 1,
    {
        let ghost spec = spec_vertex_words(polyline.vertices@);
        let mut words: Vec<u32> = Vec::new();
        let mut i: usize = 0;
        while i < polyline.vertices.len()
            invariant
                i <= polyline.vertices@.len(),
                spec == spec_vertex_words(polyline.vertices@),
                words@.len() == 3 * i,
                forall|k: int| 0 <= k < words@.len() ==> words@[k] == spec[k],
            decreases polyline.vertices@.len() - i,
        {
            let v = polyline.vertices[i];
            words.push(v.x);
            words.push(v.y);
            words.push(v.z);
            proof {
                let pi = i as int;
                assert((3 * pi) / 3 == pi && (3 * pi) % 3 == 0) by (nonlinear_arith)
                    requires
                        0 <= pi,
                ;
                assert((3 * pi + 1) / 3 == pi && (3 * pi + 1) % 3 == 1) by (nonlinear_arith)
                    requires
                        0 <= pi,
                ;
                assert((3 * pi + 2) / 3 == pi && (3 * pi + 2) % 3 == 2) by (nonlinear_arith)
                    requires
                        0 <= pi,
                ;
                assert(words@[3 * pi] == spec[3 * pi]);
                assert(words@[3 * pi + 1] == spec[3 * pi + 1]);
                assert(words@[3 * pi + 2] == spec[3 * pi + 2]);
            }
            i = i + 1;
        }
        proof {
            assert(words@ =~= spec);
            crate::render_resource::lemma_words_to_le_bytes_index(words@);
        }
        let vertex_count = polyline.vertices.len() as u32;
        let vertex_buffer_data = words_to_le_bytes(&words);
        let vertex_buffer = render_device.create_buffer_with_data(vertex_buffer_data);
        GpuPolyline { vertex_buffer, vertex_count }
    }
}

/// Draw instances a polyline of `vertex_count` points issues: one per
/// adjacent vertex pair, so none below two points and `N - 1` for `N`
/// points.
pub open spec fn spec_draw_instances(vertex_count: u32) -> u32 {
    if vertex_count < 2 {
        0u32
    } else {
        (vertex_count - 1) as u32
    }
}

/// What every specialized polyline descriptor holds for a key,
/// whichever pipeline specialized it: the pass and blend selection, the
/// depth policy, the target format, the sample count, and the two
/// instance-stepped vertex buffer slots.
pub open spec fn spec_specialized_common(
    shader: ShaderId,
    key: PolylinePipelineKey,
    d: RenderPipelineDescriptor,
) -> bool {
    &&& d.label == (if spec_contains(key.bits, TRANSPARENT_MAIN_PASS_BIT) || spec_contains(
        key.bits,
        PERSPECTIVE_BIT,
    ) {
        PipelineLabel::TransparentPolyline
    } else {
        PipelineLabel::OpaquePolyline
    })
    &&& d.vertex.shader == shader
    &&& d.vertex.buffers@.len() == 2
    &&& d.vertex.buffers@[0].array_stride == 12
    &&& d.vertex.buffers@[0].step_mode == VertexStepMode::Instance
    &&& d.vertex.buffers@[0].attributes@ =~= seq![
        (VertexAttribute { format: VertexFormat::Float32x3, offset: 0, shader_location: 0 }),
    ]
    &&& d.vertex.buffers@[1].array_stride == 12
    &&& d.vertex.buffers@[1].step_mode == VertexStepMode::Instance
    &&& d.vertex.buffers@[1].attributes@ =~= seq![
        (VertexAttribute { format: VertexFormat::Float32x3, offset: 0, shader_location: 1 }),
    ]
    &&& (d.fragment matches Some(f) && {
        &&& f.shader == shader
        &&& f.targets@ =~= seq![
            (ColorTargetState {
                format: if spec_contains(key.bits, HDR_BIT) {
                    TextureFormat::Rgba16Float
                } else {
                    TextureFormat::Rgba8UnormSrgb
                },
                blend: Some(
                    if spec_contains(key.bits, TRANSPARENT_MAIN_PASS_BIT) || spec_contains(
                        key.bits,
                        PERSPECTIVE_BIT,
                    ) {
                        BlendState::AlphaBlending
                    } else {
                        BlendState::Replace
                    },
                ),
            }),
        ]
    })
    &&& d.primitive == (PrimitiveState {
        topology: PrimitiveTopology::TriangleList,
        front_face: FrontFace::Ccw,
        cull_mode: None::<Face>,
    })
    &&& d.depth_stencil == Some(
        (DepthStencilState {
            format: TextureFormat::Depth32Float,
            depth_write_enabled: !spec_contains(key.bits, TRANSPARENT_MAIN_PASS_BIT),
            depth_compare: CompareFunction::Greater,
        }),
    )
    &&& d.multisample.count == spec_msaa_samples(key.bits)
}

/// The base polyline pipeline: the two per-draw bind-group layouts and
/// the shader module every variant is specialized from.
#[derive(Clone, Debug, PartialEq)]
pub struct PolylinePipeline {
    pub view_layout: BindGroupLayout,
    pub polyline_layout: BindGroupLayout,
    pub shader: ShaderId,
}

impl PolylinePipeline {
    /// The pipeline as registered at startup: per-view and per-polyline
    /// uniform layouts, and the polyline shader.
    pub fn new() -> (r: Self)
        ensures
            r.view_layout == BindGroupLayout::ViewLayout,
            r.polyline_layout == BindGroupLayout::PolylineLayout,
            r.shader == SHADER_HANDLE,
    {
        PolylinePipeline {
            view_layout: BindGroupLayout::ViewLayout,
            polyline_layout: BindGroupLayout::PolylineLayout,
            shader: SHADER_HANDLE,
        }
    }

    /// Specialize the pipeline for one key.
    ///
    /// Transparent variants alpha-blend without depth writes; perspective
    /// variants alpha-blend too (thin lines fade rather than vanish) but
    /// keep depth writes, since most of their fragments stay opaque;
    /// plain opaque variants replace and write depth.  Depth compares
    /// with `Greater` (reversed Z), the color target format follows the
    /// HDR flag, and the two instance-stepped vertex buffer slots feed
    /// each quad its segment's start and end point.
    pub fn specialize(&self, key: PolylinePipelineKey) -> (d: RenderPipelineDescriptor)
        ensures
            spec_specialized_common(self.shader, key, d),
            d.vertex.shader_defs@ =~= Seq::<ShaderDef>::empty(),
            d.fragment matches Some(f) && f.shader_defs@ =~= Seq::<ShaderDef>::empty(),
            d.layout@ =~= Seq::<BindGroupLayout>::empty(),
    {
        let transparent = key.contains(PolylinePipelineKey::transparent_main_pass());
        let perspective = key.contains(PolylinePipelineKey::perspective());

        let label: PipelineLabel;
        let blend: BlendState;
        let depth_write_enabled: bool;
        if transparent {
            label = PipelineLabel::TransparentPolyline;
            blend = BlendState::AlphaBlending;
            // Closer fragments blend over farther ones; their depth is
            // not written, so blending order alone decides the image.
            depth_write_enabled = false;
        } else if perspective {
            // Perspective needs the transparent pass to fade sub-pixel
            // lines, but an opaque material is expected, so depth writes
            // stay on: most lines need no blending.
            label = PipelineLabel::TransparentPolyline;
            blend = BlendState::AlphaBlending;
            depth_write_enabled = true;
        } else {
            label = PipelineLabel::OpaquePolyline;
            blend = BlendState::Replace;
            depth_write_enabled = true;
        }

        let format = if key.contains(PolylinePipelineKey::hdr()) {
            TextureFormat::Rgba16Float
        } else {
            TextureFormat::Rgba8UnormSrgb
        };

        let stride = VertexFormat::Float32x3.size();
        let mut attributes0: Vec<VertexAttribute> = Vec::new();
        attributes0.push(
            VertexAttribute { format: VertexFormat::Float32x3, offset: 0, shader_location: 0 },
        );
        let mut attributes1: Vec<VertexAttribute> = Vec::new();
        attributes1.push(
            VertexAttribute { format: VertexFormat::Float32x3, offset: 0, shader_location: 1 },
        );
        let mut buffers: Vec<VertexBufferLayout> = Vec::new();
        buffers.push(
            VertexBufferLayout {
                array_stride: stride,
                step_mode: VertexStepMode::Instance,
                attributes: attributes0,
            },
        );
        buffers.push(
            VertexBufferLayout {
                array_stride: stride,
                step_mode: VertexStepMode::Instance,
                attributes: attributes1,
            },
        );

        let mut targets: Vec<ColorTargetState> = Vec::new();
        targets.push(ColorTargetState { format, blend: Some(blend) });

        RenderPipelineDescriptor {
            label,
            vertex: VertexState {
                shader: self.shader,
                shader_defs: Vec::new(),
                buffers,
            },
            fragment: Some(
                FragmentState { shader: self.shader, shader_defs: Vec::new(), targets },
            ),
            // Set when the material pipeline specializes further.
            layout: Vec::new(),
            primitive: PrimitiveState {
                topology: PrimitiveTopology::TriangleList,
                front_face: FrontFace::Ccw,
                cull_mode: None,
            },
            depth_stencil: Some(
                DepthStencilState {
                    format: TextureFormat::Depth32Float,
                    depth_write_enabled,
                    depth_compare: CompareFunction::Greater,
                },
            ),
            multisample: MultisampleState { count: key.msaa_samples() },
        }
    }
}

/// The bind group carrying every polyline's dynamically indexed uniform.
#[derive(Clone, Copy, Debug, PartialEq, Eq, Structural)]
pub struct PolylineBindGroup {
    pub value: BindGroupId,
}

/// Build the per-polyline bind group, if the uniform buffer was
/// allocated this frame; with no extracted polylines there is no binding
/// and no bind group, and drawing is skipped rather than failed.
pub fn prepare_polyline_bind_group(
    render_device: &mut RenderDevice,
    polyline_pipeline: &PolylinePipeline,
    polyline_uniforms_binding: Option<u64>,
) -> (r: Option<PolylineBindGroup>)
    requires
        old(render_device).next_id < u64::MAX,
    ensures
        r is Some <==> polyline_uniforms_binding is Some,
        r matches Some(g) ==> g.value == old(render_device).next_id,
{
    match polyline_uniforms_binding {
        Some(binding) => {
            let value = render_device.create_bind_group(polyline_pipeline.polyline_layout, binding);
            Some(PolylineBindGroup { value })
        },
        None => None,
    }
}

/// The per-view bind group carrying the view uniform.
#[derive(Clone, Copy, Debug, PartialEq, Eq, Structural)]
pub struct PolylineViewBindGroup {
    pub value: BindGroupId,
}

/// Build one view bind group per extracted view, in view order.
pub fn prepare_polyline_view_bind_groups(
    render_device: &mut RenderDevice,
    polyline_pipeline: &PolylinePipeline,
    views: &Vec<u64>,
    view_uniforms_buffer: u64,
) -> (r: Vec<(u64, PolylineViewBindGroup)>)
    requires
        old(render_device).next_id + views@.len() <= u64::MAX,
    ensures
        r@.len() == views@.len(),
        forall|i: int| 0 <= i < r@.len() ==> (#[trigger] r@[i]).0 == views@[i],
        final (render_device).next_id == old(render_device).next_id + views@.len(),
{
    let ghost start_id = render_device.next_id;
    let mut out: Vec<(u64, PolylineViewBindGroup)> = Vec::new();
    let mut i: usize = 0;
    while i < views.len()
        invariant
            i <= views@.len(),
            out@.len() == i,
            forall|j: int| 0 <= j < i ==> (#[trigger] out@[j]).0 == views@[j],
            render_device.next_id == start_id + i,
            start_id + views@.len() <= u64::MAX,
        decreases views@.len() - i,
    {
        let entity = views[i];
        let value = render_device.create_bind_group(
            polyline_pipeline.view_layout,
            view_uniforms_buffer,
        );
        out.push((entity, PolylineViewBindGroup { value }));
        i = i + 1;
    }
    out
}

/// Draw-stage command binding the per-polyline uniform bind group at
/// slot `I` with the entity's dynamic offset.
pub struct SetPolylineBindGroup<const I: u32>;

impl<const I: u32> SetPolylineBindGroup<I> {
    /// Bind the polyline bind group, or fail the item when the entity
    /// carries no dynamic uniform index.
    pub fn render(
        polyline_index: Option<u32>,
        bind_group: &PolylineBindGroup,
        pass: &mut TrackedRenderPass,
    ) -> (r: RenderCommandResult)
        ensures
            r is Success <==> polyline_index is Some,
            polyline_index matches Some(dynamic_index) ==> final (pass).ops@ =~= old(
                pass,
            ).ops@.push(
                (PassOp::SetBindGroup {
                    index: I,
                    bind_group: bind_group.value,
                    dynamic_offset: Some(dynamic_index),
                }),
            ),
            polyline_index is None ==> final (pass).ops@ =~= old(pass).ops@,
    {
        match polyline_index {
            Some(dynamic_index) => {
                pass.set_bind_group(I, bind_group.value, Some(dynamic_index));
                RenderCommandResult::Success
            },
            None => RenderCommandResult::Failure,
        }
    }
}

/// Draw-stage command issuing the instanced draw for one polyline.
pub struct DrawPolyline;

impl DrawPolyline {
    /// Draw one polyline: bind its vertex buffer twice, offset by one
    /// vertex for the second slot so each instance reads a point and its
    /// successor, then draw a six-vertex quad per adjacent vertex pair.
    ///
    /// A polyline of fewer than two vertices issues no draw at all; a
    /// missing GPU polyline (asset not ready) fails the item, which the
    /// host skips for this frame.
    pub fn render(gpu_polyline: Option<&GpuPolyline>, pass: &mut TrackedRenderPass) -> (r:
        RenderCommandResult)
        requires
            gpu_polyline matches Some(g) ==> g.spec_wf(),
        ensures
            r is Success <==> gpu_polyline is Some,
            gpu_polyline is None ==> final (pass).ops@ =~= old(pass).ops@,
            gpu_polyline matches Some(g) ==> (g.vertex_count < 2 ==> final (pass).ops@ =~= old(
                pass,
            ).ops@),
            gpu_polyline matches Some(g) ==> (g.vertex_count >= 2 ==> final (pass).ops@ =~= old(
                pass,
            ).ops@ + seq![
                (PassOp::SetVertexBuffer {
                    slot: 0,
                    buffer: g.vertex_buffer.id,
                    offset: 0,
                    size: (g.vertex_buffer.contents@.len() - 12) as u64,
                }),
                (PassOp::SetVertexBuffer {
                    slot: 1,
                    buffer: g.vertex_buffer.id,
                    offset: 12,
                    size: (g.vertex_buffer.contents@.len() - 12) as u64,
                }),
                (PassOp::Draw { vertices: 6, instances: spec_draw_instances(g.vertex_count) }),
            ]),
    {
        match gpu_polyline {
            Some(g) => {
                if g.vertex_count < 2 {
                    return RenderCommandResult::Success;
                }
                let item_size: u64 = 12;
                let buffer_size = g.vertex_buffer.size() - item_size;
                pass.set_vertex_buffer(0, g.vertex_buffer.id, 0, buffer_size);
                pass.set_vertex_buffer(1, g.vertex_buffer.id, item_size, buffer_size);
                let num_instances = g.vertex_count - 1;
                pass.draw(6, num_instances);
                RenderCommandResult::Success
            },
            None => RenderCommandResult::Failure,
        }
    }
}

} // verus!
