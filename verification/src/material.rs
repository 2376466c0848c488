//! Polyline materials, their GPU form, and per-frame draw batching.
//!
//! Scalars the renderer inspects — color channels, line width, depth
//! bias — are carried in 16.16 fixed point, so every decision taken on
//! them is exact integer logic; the host converts to the device's float
//! formats when uploading.

use vstd::prelude::*;

use crate::polyline::{
    spec_contains, spec_msaa_bits, spec_msaa_samples, PolylinePipeline, PolylinePipelineKey,
    CLIPPING_BIT, HDR_BIT, PERSPECTIVE_BIT, TRANSPARENT_MAIN_PASS_BIT,
};
use crate::render_resource::{
    spec_words_to_le_bytes, words_to_le_bytes, BindGroupId, BindGroupLayout, Buffer,
    CachedPipelineId, RenderDevice, RenderPipelineDescriptor, ShaderDef, ShaderId,
};

verus! {

/// One in 16.16 fixed point: the denominator of every fixed-point
/// scalar in this module.
pub const FIXED_ONE: u32 = 0x1_0000;

/// The default line width: ten pixels, in 16.16 fixed point.
pub const DEFAULT_WIDTH: u32 = 0xA_0000;

/// A linear RGBA color, each channel in 16.16 fixed point, so that
/// `FIXED_ONE` is full intensity.
#[derive(Clone, Copy, Debug, PartialEq, Eq, Structural)]
pub struct Color {
    pub red: u32,
    pub green: u32,
    pub blue: u32,
    pub alpha: u32,
}

impl Color {
    /// Opaque white.
    pub fn white() -> (r: Self)
        ensures
            r == (Color { red: FIXED_ONE, green: FIXED_ONE, blue: FIXED_ONE, alpha: FIXED_ONE }),
    {
        Color { red: FIXED_ONE, green: FIXED_ONE, blue: FIXED_ONE, alpha: FIXED_ONE }
    }
}

/// How a material's alpha channel is used for transparency.
#[derive(Clone, Copy, Debug, PartialEq, Eq, Structural)]
pub enum AlphaMode {
    /// Alpha is overridden to fully opaque.
    Opaque,
    /// Fully opaque or fully transparent by comparing alpha to the held
    /// cutoff.
    Mask(u32),
    /// Standard alpha blending against the fragments behind.
    Blend,
    /// Alpha blending of premultiplied color channels.
    Premultiplied,
    /// Additive blending.
    Add,
    /// Multiplicative blending.
    Multiply,
}

impl AlphaMode {
    /// Whether fragments of this mode blend with what is behind them and
    /// so belong in the transparent pass.
    pub open spec fn spec_is_transparent(self) -> bool {
        match self {
            AlphaMode::Opaque => false,
            AlphaMode::Mask(_) => false,
            AlphaMode::Blend => true,
            AlphaMode::Premultiplied => true,
            AlphaMode::Add => true,
            AlphaMode::Multiply => true,
        }
    }
}

/// The alpha mode a color implies: anything below full alpha blends,
/// full (or over-full) alpha is opaque.  A total, pure mapping: equal
/// colors always give equal modes.
pub open spec fn spec_alpha_mode(color: Color) -> AlphaMode {
    if color.alpha < FIXED_ONE {
        AlphaMode::Blend
    } else {
        AlphaMode::Opaque
    }
}

/// Visual parameters of a polyline; an immutable value type, replaced —
/// not mutated — to change a line's look.
#[derive(Clone, Copy, Debug, PartialEq, Eq, Structural)]
pub struct PolylineMaterial {
    /// Width of the line in 16.16 fixed-point screen pixels, as measured
    /// nearest the camera.
    pub width: u32,
    pub color: Color,
    /// How much closer to the camera than its real geometry the line
    /// renders, in 16.16 fixed point between minus one and one: zero
    /// leaves depth alone, minus one always renders in front.  Useful
    /// against z-fighting when drawing wireframes over polygons.
    pub depth_bias: i32,
    /// Whether line width shrinks with perspective.  When set, `width`
    /// holds at the near plane and is divided by each vertex's
    /// homogeneous w further away; lines thinner than one pixel fade
    /// instead of flickering.
    pub perspective: bool,
    /// Whether the global half-space planes clip this line.
    pub enable_clipping: bool,
}

impl PolylineMaterial {
    /// The depth bias stays within one depth range either way.
    pub open spec fn spec_wf(self) -> bool {
        -(FIXED_ONE as int) <= self.depth_bias as int <= FIXED_ONE as int
    }

    /// The alpha mode this material's color implies.
    pub fn alpha_mode(&self) -> (m: AlphaMode)
        ensures
            m == spec_alpha_mode(self.color),
    {
        if self.color.alpha < FIXED_ONE {
            AlphaMode::Blend
        } else {
            AlphaMode::Opaque
        }
    }

    /// The bind-group layout every material's uniform is bound under.
    pub fn bind_group_layout() -> (r: BindGroupLayout)
        ensures
            r == BindGroupLayout::MaterialLayout,
    {
        BindGroupLayout::MaterialLayout
    }
}

impl Default for PolylineMaterial {
    /// A ten-pixel opaque white line with no bias, no perspective
    /// scaling, and no clipping.
    fn default() -> (r: Self)
        ensures
            r.width == DEFAULT_WIDTH,
            r.color == (Color {
                red: FIXED_ONE,
                green: FIXED_ONE,
                blue: FIXED_ONE,
                alpha: FIXED_ONE,
            }),
            r.depth_bias == 0,
            !r.perspective,
            !r.enable_clipping,
            r.spec_wf(),
    {
        PolylineMaterial {
            width: DEFAULT_WIDTH,
            color: Color::white(),
            depth_bias: 0,
            perspective: false,
            enable_clipping: false,
        }
    }
}

/// A material's alpha decides its mode totally: full alpha always maps
/// to `Opaque`, anything below always to `Blend`, and nothing else.
pub proof fn lemma_alpha_mode_total(color: Color)
    ensures
        color.alpha >= FIXED_ONE <==> spec_alpha_mode(color) == AlphaMode::Opaque,
        color.alpha < FIXED_ONE <==> spec_alpha_mode(color) == AlphaMode::Blend,
{
}

/// Reference to a material asset held by the host's asset store.
#[derive(Clone, Copy, Debug, Default, PartialEq, Eq, Structural)]
pub struct PolylineMaterialHandle(pub u64);

/// The 32-bit word a fixed-point depth bias occupies in the uniform:
/// its two's-complement pattern.
pub open spec fn spec_i32_word(x: i32) -> u32 {
    if x >= 0 {
        x as u32
    } else {
        (x + 0x1_0000_0000) as u32
    }
}

/// The words of a material uniform in buffer order: the four color
/// channels, the depth bias, and the width.
pub open spec fn spec_material_uniform_words(u: PolylineMaterialUniform) -> Seq<u32> {
    seq![
        u.color.red,
        u.color.green,
        u.color.blue,
        u.color.alpha,
        spec_i32_word(u.depth_bias),
        u.width,
    ]
}

/// The per-material uniform as uploaded: color, depth bias, width.
#[derive(Clone, Copy, Debug, PartialEq, Eq, Structural)]
pub struct PolylineMaterialUniform {
    pub color: Color,
    pub depth_bias: i32,
    pub width: u32,
}

impl PolylineMaterialUniform {
    /// The uniform's words in buffer order.
    pub fn words(&self) -> (r: Vec<u32>)
        ensures
            r@ =~= spec_material_uniform_words(*self),
    {
        let mut words: Vec<u32> = Vec::new();
        words.push(self.color.red);
        words.push(self.color.green);
        words.push(self.color.blue);
        words.push(self.color.alpha);
        let bias = self.depth_bias;
        let bias_word: u32 = if bias >= 0 {
            bias as u32
        } else {
            let wide: i64 = (bias as i64) + 0x1_0000_0000;
            wide as u32
        };
        words.push(bias_word);
        words.push(self.width);
        words
    }
}

/// A material ready to draw with: its uploaded uniform buffer, its bind
/// group, and the flags the batcher reads.
#[derive(Clone, Debug, PartialEq)]
pub struct GpuPolylineMaterial {
    pub buffer: Buffer,
    pub perspective: bool,
    pub enable_clipping: bool,
    pub bind_group: BindGroupId,
    pub alpha_mode: AlphaMode,
}

impl GpuPolylineMaterial {
    /// Prepare a material for drawing: upload its uniform words to a
    /// fresh buffer, bind it under the material layout, and fix the
    /// alpha mode from the color's alpha channel.
    pub fn prepare_asset(
        polyline_material: &PolylineMaterial,
        render_device: &mut RenderDevice,
    ) -> (r: GpuPolylineMaterial)
        requires
            old(render_device).next_id + 2 <= u64::MAX,
        ensures
            r.buffer.contents@ =~= spec_words_to_le_bytes(
                spec_material_uniform_words(
                    (PolylineMaterialUniform {
                        color: polyline_material.color,
                        depth_bias: polyline_material.depth_bias,
                        width: polyline_material.width,
                    }),
                ),
            ),
            r.buffer.id == old(render_device).next_id,
            r.bind_group == old(render_device).next_id + 1,
            r.perspective == polyline_material.perspective,
            r.enable_clipping == polyline_material.enable_clipping,
            r.alpha_mode == spec_alpha_mode(polyline_material.color),
            final (render_device).next_id == old(render_device).next_id + 2,
    {
        let value = PolylineMaterialUniform {
            width: polyline_material.width,
            depth_bias: polyline_material.depth_bias,
            color: polyline_material.color,
        };
        let words = value.words();
        let bytes = words_to_le_bytes(&words);
        let buffer = render_device.create_buffer_with_data(bytes);
        let bind_group = render_device.create_bind_group(
            PolylineMaterial::bind_group_layout(),
            buffer.id,
        );
        let alpha_mode = polyline_material.alpha_mode();
        GpuPolylineMaterial {
            buffer,
            perspective: polyline_material.perspective,
            enable_clipping: polyline_material.enable_clipping,
            bind_group,
            alpha_mode,
        }
    }

    /// The bind group a prepared material draws with.
    pub fn bind_group(render_asset: &GpuPolylineMaterial) -> (r: BindGroupId)
        ensures
            r == render_asset.bind_group,
    {
        render_asset.bind_group
    }

    /// Material uniforms are not dynamically indexed: no dynamic offset.
    pub fn dynamic_uniform_indices(material: &GpuPolylineMaterial) -> (r: Option<u32>)
        ensures
            r is None,
    {
        None
    }
}

/// The material-level pipeline: the base polyline pipeline plus the
/// material and half-space bind-group layouts.
#[derive(Clone, Debug, PartialEq)]
pub struct PolylineMaterialPipeline {
    pub polyline_pipeline: PolylinePipeline,
    pub material_layout: BindGroupLayout,
    pub half_spaces_layout: BindGroupLayout,
}

impl PolylineMaterialPipeline {
    /// The pipeline holds each bind-group layout in its proper slot.
    pub open spec fn spec_wf(self) -> bool {
        &&& self.polyline_pipeline.view_layout == BindGroupLayout::ViewLayout
        &&& self.polyline_pipeline.polyline_layout == BindGroupLayout::PolylineLayout
        &&& self.material_layout == BindGroupLayout::MaterialLayout
        &&& self.half_spaces_layout == BindGroupLayout::HalfSpacesLayout
    }

    /// The pipeline as registered at startup.
    pub fn new() -> (r: Self)
        ensures
            r.polyline_pipeline.view_layout == BindGroupLayout::ViewLayout,
            r.polyline_pipeline.polyline_layout == BindGroupLayout::PolylineLayout,
            r.polyline_pipeline.shader == crate::polyline::SHADER_HANDLE,
            r.material_layout == BindGroupLayout::MaterialLayout,
            r.half_spaces_layout == BindGroupLayout::HalfSpacesLayout,
            r.spec_wf(),
    {
        PolylineMaterialPipeline {
            polyline_pipeline: PolylinePipeline::new(),
            material_layout: PolylineMaterial::bind_group_layout(),
            half_spaces_layout: BindGroupLayout::HalfSpacesLayout,
        }
    }

    /// Specialize for one key: the base specialization, plus the shader
    /// switches for perspective and clipping, plus the full four-slot
    /// bind-group layout.
    pub fn specialize(&self, key: PolylinePipelineKey) -> (d: RenderPipelineDescriptor)
        requires
            self.spec_wf(),
        ensures
            spec_material_descriptor_ok(self.polyline_pipeline.shader, key, d),
    {
        let mut descriptor = self.polyline_pipeline.specialize(key);
        if key.contains(PolylinePipelineKey::perspective()) {
            descriptor.vertex.shader_defs.push(ShaderDef::PolylinePerspective);
        }
        if key.contains(PolylinePipelineKey::clipping()) {
            let fragment = descriptor.fragment;
            match fragment {
                Some(mut fragment_state) => {
                    fragment_state.shader_defs.push(ShaderDef::PolylineClipping);
                    descriptor.fragment = Some(fragment_state);
                },
                None => {
                    descriptor.fragment = None;
                },
            }
        }
        let mut layout: Vec<BindGroupLayout> = Vec::new();
        layout.push(self.polyline_pipeline.view_layout);
        layout.push(self.polyline_pipeline.polyline_layout);
        layout.push(self.material_layout);
        layout.push(self.half_spaces_layout);
        descriptor.layout = layout;
        descriptor
    }
}

/// What a material-specialized descriptor holds for a key: the base
/// specialization's states, the shader switches the key asks for, and
/// the four bind-group layouts in slot order.
pub open spec fn spec_material_descriptor_ok(
    shader: ShaderId,
    key: PolylinePipelineKey,
    d: RenderPipelineDescriptor,
) -> bool {
    &&& crate::polyline::spec_specialized_common(shader, key, d)
    &&& d.vertex.shader_defs@ =~= if spec_contains(key.bits, PERSPECTIVE_BIT) {
        seq![ShaderDef::PolylinePerspective]
    } else {
        Seq::<ShaderDef>::empty()
    }
    &&& (d.fragment matches Some(f) && f.shader_defs@ =~= if spec_contains(
        key.bits,
        CLIPPING_BIT,
    ) {
        seq![ShaderDef::PolylineClipping]
    } else {
        Seq::<ShaderDef>::empty()
    })
    &&& d.layout@ =~= seq![
        BindGroupLayout::ViewLayout,
        BindGroupLayout::PolylineLayout,
        BindGroupLayout::MaterialLayout,
        BindGroupLayout::HalfSpacesLayout,
    ]
}

/// The device-side pipeline cache: descriptors queued for compilation,
/// identified by their queueing index.
#[derive(Clone, Debug, PartialEq)]
pub struct PipelineCache {
    pub descriptors: Vec<RenderPipelineDescriptor>,
}

impl PipelineCache {
    /// An empty cache.
    pub fn new() -> (r: Self)
        ensures
            r.descriptors@ =~= Seq::<RenderPipelineDescriptor>::empty(),
    {
        PipelineCache { descriptors: Vec::new() }
    }

    /// Queue a descriptor for compilation and return its identifier.
    pub fn queue(&mut self, descriptor: RenderPipelineDescriptor) -> (id: CachedPipelineId)
        requires
            old(self).descriptors@.len() < usize::MAX,
        ensures
            id == old(self).descriptors@.len(),
            final (self).descriptors@ =~= old(self).descriptors@.push(descriptor),
    {
        let id = self.descriptors.len();
        self.descriptors.push(descriptor);
        id
    }

    /// The descriptor queued under an identifier.
    pub fn get(&self, id: CachedPipelineId) -> (r: &RenderPipelineDescriptor)
        requires
            id < self.descriptors@.len(),
        ensures
            *r == self.descriptors@[id as int],
    {
        &self.descriptors[id]
    }
}

/// The pipeline id memoized for a key, if the key was seen before.
pub open spec fn spec_lookup(entries: Seq<(u32, CachedPipelineId)>, key_bits: u32) -> Option<
    CachedPipelineId,
>
    decreases entries.len(),
{
    if entries.len() == 0 {
        None
    } else if entries.first().0 == key_bits {
        Some(entries.first().1)
    } else {
        spec_lookup(entries.drop_first(), key_bits)
    }
}

/// Every memo entry points into the cache, at a descriptor that is the
/// material specialization of the entry's key.
pub open spec fn spec_memo_wf(
    entries: Seq<(u32, CachedPipelineId)>,
    descriptors: Seq<RenderPipelineDescriptor>,
    shader: ShaderId,
) -> bool {
    forall|i: int|
        0 <= i < entries.len() ==> {
            &&& (#[trigger] entries[i]).1 < descriptors.len()
            &&& spec_material_descriptor_ok(
                shader,
                (PolylinePipelineKey { bits: entries[i].0 }),
                descriptors[entries[i].1 as int],
            )
        }
}

/// A key appended to a table it was absent from is then found, with the
/// appended id.
pub proof fn lemma_lookup_push(
    entries: Seq<(u32, CachedPipelineId)>,
    key_bits: u32,
    id: CachedPipelineId,
)
    requires
        spec_lookup(entries, key_bits) is None,
    ensures
        spec_lookup(entries.push((key_bits, id)), key_bits) == Some(id),
    decreases entries.len(),
{
    if entries.len() == 0 {
        assert(entries.push((key_bits, id)).first() == (key_bits, id));
    } else {
        lemma_lookup_push(entries.drop_first(), key_bits, id);
        assert(entries.push((key_bits, id)).drop_first() =~= entries.drop_first().push(
            (key_bits, id),
        ));
    }
}

/// A found id belongs to some entry with the looked-up key.
pub proof fn lemma_lookup_found(entries: Seq<(u32, CachedPipelineId)>, key_bits: u32)
    requires
        spec_lookup(entries, key_bits) is Some,
    ensures
        exists|i: int|
            0 <= i < entries.len() && #[trigger] entries[i] == (
                key_bits,
                spec_lookup(entries, key_bits)->Some_0,
            ),
    decreases entries.len(),
{
    if entries.first().0 == key_bits {
        assert(entries[0] == (key_bits, spec_lookup(entries, key_bits)->Some_0));
    } else {
        lemma_lookup_found(entries.drop_first(), key_bits);
        let j = choose|i: int|
            0 <= i < entries.drop_first().len() && #[trigger] entries.drop_first()[i] == (
                key_bits,
                spec_lookup(entries.drop_first(), key_bits)->Some_0,
            );
        assert(entries[j + 1] == (key_bits, spec_lookup(entries, key_bits)->Some_0));
    }
}

/// The memoizing specialization table: one compiled pipeline per key,
/// reused for the process lifetime.
#[derive(Clone, Debug, PartialEq)]
pub struct SpecializedRenderPipelines {
    pub entries: Vec<(u32, CachedPipelineId)>,
}

impl SpecializedRenderPipelines {
    /// An empty table.
    pub fn new() -> (r: Self)
        ensures
            r.entries@ =~= Seq::<(u32, CachedPipelineId)>::empty(),
    {
        SpecializedRenderPipelines { entries: Vec::new() }
    }

    /// The pipeline for a key: the memoized id when the key was seen
    /// before — touching nothing — and otherwise a freshly specialized
    /// descriptor queued into the cache and remembered.  Equal keys thus
    /// always draw with identical pipeline state, compiled once.
    pub fn specialize(
        &mut self,
        pipeline_cache: &mut PipelineCache,
        material_pipeline: &PolylineMaterialPipeline,
        key: PolylinePipelineKey,
    ) -> (id: CachedPipelineId)
        requires
            material_pipeline.spec_wf(),
            spec_memo_wf(
                old(self).entries@,
                old(pipeline_cache).descriptors@,
                material_pipeline.polyline_pipeline.shader,
            ),
            old(pipeline_cache).descriptors@.len() < usize::MAX,
            old(self).entries@.len() < usize::MAX,
        ensures
            spec_memo_wf(
                final (self).entries@,
                final (pipeline_cache).descriptors@,
                material_pipeline.polyline_pipeline.shader,
            ),
            spec_lookup(old(self).entries@, key.bits) matches Some(id0) ==> {
                &&& id == id0
                &&& final (self).entries@ =~= old(self).entries@
                &&& final (pipeline_cache).descriptors@ =~= old(pipeline_cache).descriptors@
            },
            spec_lookup(old(self).entries@, key.bits) is None ==> {
                &&& id == old(pipeline_cache).descriptors@.len()
                &&& final (pipeline_cache).descriptors@.len() == old(
                    pipeline_cache,
                ).descriptors@.len() + 1
                &&& spec_material_descriptor_ok(
                    material_pipeline.polyline_pipeline.shader,
                    key,
                    final (pipeline_cache).descriptors@.last(),
                )
                &&& final (self).entries@ =~= old(self).entries@.push((key.bits, id))
            },
            final (pipeline_cache).descriptors@.take(old(pipeline_cache).descriptors@.len() as int)
                =~= old(pipeline_cache).descriptors@,
            id < final (pipeline_cache).descriptors@.len(),
            spec_material_descriptor_ok(
                material_pipeline.polyline_pipeline.shader,
                key,
                final (pipeline_cache).descriptors@[id as int],
            ),
            spec_lookup(final (self).entries@, key.bits) == Some(id),
    {
        let ghost shader = material_pipeline.polyline_pipeline.shader;
        proof {
            assert(self.entries@.skip(0) =~= self.entries@);
        }
        let mut i: usize = 0;
        #[verifier::loop_isolation(false)]
        while i < self.entries.len()
            invariant
                i <= self.entries@.len(),
                spec_lookup(self.entries@, key.bits) == spec_lookup(
                    self.entries@.skip(i as int),
                    key.bits,
                ),
            decreases self.entries@.len() - i,
        {
            let entry = self.entries[i];
            proof {
                assert(self.entries@.skip(i as int).first() == self.entries@[i as int]);
                assert(self.entries@.skip(i as int).drop_first() =~= self.entries@.skip(i + 1));
            }
            if entry.0 == key.bits() {
                proof {
                    lemma_lookup_found(self.entries@, key.bits);
                }
                return entry.1;
            }
            i = i + 1;
        }
        proof {
            assert(self.entries@.skip(self.entries@.len() as int) =~= Seq::<
                (u32, CachedPipelineId),
            >::empty());
        }
        let descriptor = material_pipeline.specialize(key);
        let id = pipeline_cache.queue(descriptor);
        self.entries.push((key.bits(), id));
        proof {
            lemma_lookup_push(old(self).entries@, key.bits, id);
            assert forall|j: int| 0 <= j < self.entries@.len() implies {
                &&& (#[trigger] self.entries@[j]).1 < pipeline_cache.descriptors@.len()
                &&& spec_material_descriptor_ok(
                    shader,
                    (PolylinePipelineKey { bits: self.entries@[j].0 }),
                    pipeline_cache.descriptors@[self.entries@[j].1 as int],
                )
            } by {
                if j < old(self).entries@.len() {
                    assert(old(self).entries@[j] == self.entries@[j]);
                }
            }
        }
        id
    }
}

/// Asset id used when a phase item carries no mesh asset.
pub const INVALID_ASSET_ID: u64 = u64::MAX;

/// One view as the batcher sees it: its entity and whether it renders
/// to an HDR target.
#[derive(Clone, Copy, Debug, PartialEq, Eq, Structural)]
pub struct ExtractedView {
    pub entity: u64,
    pub hdr: bool,
}

/// One visible polyline entity, after visibility culling and asset
/// lookup: its material (absent while the asset is still loading) and
/// its view-space depth key.
///
/// `view_z` is the z component of the entity's translation in view
/// space — the dot product of the inverse view matrix's third row with
/// the transform's translation column — mapped by the host to an
/// integer that orders as the float does.  With the camera looking down
/// negative z, larger values are nearer.
#[derive(Clone, Debug, PartialEq)]
pub struct VisiblePolyline {
    pub entity: u64,
    pub material: Option<GpuPolylineMaterial>,
    pub view_z: i64,
}

/// Sort key of the opaque and alpha-mask phases: pipeline and bind-group
/// identity, so state changes are minimized; never depth.
#[derive(Clone, Copy, Debug, PartialEq, Eq, Structural)]
pub struct Opaque3dBinKey {
    pub draw_function: u64,
    pub pipeline: CachedPipelineId,
    pub asset_id: u64,
    pub material_bind_group_id: Option<BindGroupId>,
}

/// One entry of a binned (opaque or alpha-mask) render phase.
#[derive(Clone, Copy, Debug, PartialEq, Eq, Structural)]
pub struct BinnedPhaseItem {
    pub key: Opaque3dBinKey,
    pub entity: u64,
}

/// One entry of the transparent phase, sorted back to front by
/// `distance` before drawing.
#[derive(Clone, Copy, Debug, PartialEq, Eq, Structural)]
pub struct Transparent3d {
    pub entity: u64,
    pub draw_function: u64,
    pub pipeline: CachedPipelineId,
    pub distance: i64,
}

/// The three per-view render phases one frame's batching fills.
#[derive(Clone, Debug, PartialEq)]
pub struct RenderPhases {
    pub opaque: Vec<BinnedPhaseItem>,
    pub alpha_mask: Vec<BinnedPhaseItem>,
    pub transparent: Vec<Transparent3d>,
}

impl RenderPhases {
    /// Empty phases, as each frame starts with.
    pub fn new() -> (r: Self)
        ensures
            r.opaque@ =~= Seq::<BinnedPhaseItem>::empty(),
            r.alpha_mask@ =~= Seq::<BinnedPhaseItem>::empty(),
            r.transparent@ =~= Seq::<Transparent3d>::empty(),
    {
        RenderPhases { opaque: Vec::new(), alpha_mask: Vec::new(), transparent: Vec::new() }
    }
}

/// The pipeline key a material draws with under a view: the view's MSAA
/// and HDR state, transparency when the material blends, and the
/// material's perspective and clipping flags.
pub open spec fn spec_key_bits_for(msaa_samples: u32, hdr: bool, m: GpuPolylineMaterial) -> u32 {
    spec_msaa_bits(msaa_samples) | (if hdr {
        HDR_BIT
    } else {
        0u32
    }) | (if m.alpha_mode == AlphaMode::Blend {
        TRANSPARENT_MAIN_PASS_BIT
    } else {
        0u32
    }) | (if m.perspective {
        PERSPECTIVE_BIT
    } else {
        0u32
    }) | (if m.enable_clipping {
        CLIPPING_BIT
    } else {
        0u32
    })
}

/// The batching state as it evolves entity by entity: the memo table
/// and cache size, and what was appended to each phase.
pub struct QueuedBatches {
    pub entries: Seq<(u32, CachedPipelineId)>,
    pub n_descriptors: int,
    pub opaque: Seq<BinnedPhaseItem>,
    pub alpha_mask: Seq<BinnedPhaseItem>,
    pub transparent: Seq<Transparent3d>,
}

/// Batching one entity: an absent material skips it for the frame; any
/// other is keyed, specialized through the memo table, and appended to
/// exactly the phase its alpha mode selects.
pub open spec fn spec_queue_step(
    st: QueuedBatches,
    v: VisiblePolyline,
    draw_opaque: u64,
    draw_alpha_mask: u64,
    draw_transparent: u64,
    msaa_samples: u32,
    hdr: bool,
) -> QueuedBatches {
    match v.material {
        None => st,
        Some(m) => {
            let bits = spec_key_bits_for(msaa_samples, hdr, m);
            let found = spec_lookup(st.entries, bits);
            let id_int: int = match found {
                Some(id0) => id0 as int,
                None => st.n_descriptors,
            };
            let id = id_int as CachedPipelineId;
            let entries1 = match found {
                Some(id0) => st.entries,
                None => st.entries.push((bits, id)),
            };
            let n1: int = match found {
                Some(id0) => st.n_descriptors,
                None => st.n_descriptors + 1,
            };
            match m.alpha_mode {
                AlphaMode::Opaque => QueuedBatches {
                    entries: entries1,
                    n_descriptors: n1,
                    opaque: st.opaque.push(
                        (BinnedPhaseItem {
                            key: Opaque3dBinKey {
                                draw_function: draw_opaque,
                                pipeline: id,
                                asset_id: INVALID_ASSET_ID,
                                material_bind_group_id: Some(m.bind_group),
                            },
                            entity: v.entity,
                        }),
                    ),
                    alpha_mask: st.alpha_mask,
                    transparent: st.transparent,
                },
                AlphaMode::Mask(cutoff) => QueuedBatches {
                    entries: entries1,
                    n_descriptors: n1,
                    opaque: st.opaque,
                    alpha_mask: st.alpha_mask.push(
                        (BinnedPhaseItem {
                            key: Opaque3dBinKey {
                                draw_function: draw_alpha_mask,
                                pipeline: id,
                                asset_id: INVALID_ASSET_ID,
                                material_bind_group_id: Some(m.bind_group),
                            },
                            entity: v.entity,
                        }),
                    ),
                    transparent: st.transparent,
                },
                AlphaMode::Blend | AlphaMode::Premultiplied | AlphaMode::Add
                    | AlphaMode::Multiply => QueuedBatches {
                    entries: entries1,
                    n_descriptors: n1,
                    opaque: st.opaque,
                    alpha_mask: st.alpha_mask,
                    transparent: st.transparent.push(
                        (Transparent3d {
                            entity: v.entity,
                            draw_function: draw_transparent,
                            pipeline: id,
                            distance: v.view_z,
                        }),
                    ),
                },
            }
        },
    }
}

/// Batching a frame's visible entities in order, starting from memo
/// table `entries0` and a cache of `n0` descriptors.
pub open spec fn spec_queue(
    visible: Seq<VisiblePolyline>,
    draw_opaque: u64,
    draw_alpha_mask: u64,
    draw_transparent: u64,
    msaa_samples: u32,
    hdr: bool,
    entries0: Seq<(u32, CachedPipelineId)>,
    n0: int,
) -> QueuedBatches
    decreases visible.len(),
{
    if visible.len() == 0 {
        QueuedBatches {
            entries: entries0,
            n_descriptors: n0,
            opaque: Seq::empty(),
            alpha_mask: Seq::empty(),
            transparent: Seq::empty(),
        }
    } else {
        spec_queue_step(
            spec_queue(
                visible.drop_last(),
                draw_opaque,
                draw_alpha_mask,
                draw_transparent,
                msaa_samples,
                hdr,
                entries0,
                n0,
            ),
            visible.last(),
            draw_opaque,
            draw_alpha_mask,
            draw_transparent,
            msaa_samples,
            hdr,
        )
    }
}

/// The per-frame batching stage: assign every visible, materialed
/// entity to exactly one of the three phases by its alpha mode, keyed
/// and specialized through the memo table; entities whose material is
/// not ready are skipped for the frame.
pub fn queue_material_polylines(
    draw_opaque: u64,
    draw_alpha_mask: u64,
    draw_transparent: u64,
    material_pipeline: &PolylineMaterialPipeline,
    pipelines: &mut SpecializedRenderPipelines,
    pipeline_cache: &mut PipelineCache,
    msaa_samples: u32,
    view: &ExtractedView,
    visible_polylines: &Vec<VisiblePolyline>,
    phases: &mut RenderPhases,
)
    requires
        material_pipeline.spec_wf(),
        spec_memo_wf(
            old(pipelines).entries@,
            old(pipeline_cache).descriptors@,
            material_pipeline.polyline_pipeline.shader,
        ),
        old(pipeline_cache).descriptors@.len() + visible_polylines@.len() < usize::MAX,
        old(pipelines).entries@.len() + visible_polylines@.len() < usize::MAX,
    ensures
        ({
            let q = spec_queue(
                visible_polylines@,
                draw_opaque,
                draw_alpha_mask,
                draw_transparent,
                msaa_samples,
                view.hdr,
                old(pipelines).entries@,
                old(pipeline_cache).descriptors@.len() as int,
            );
            &&& final (pipelines).entries@ =~= q.entries
            &&& final (pipeline_cache).descriptors@.len() == q.n_descriptors
            &&& final (phases).opaque@ =~= old(phases).opaque@ + q.opaque
            &&& final (phases).alpha_mask@ =~= old(phases).alpha_mask@ + q.alpha_mask
            &&& final (phases).transparent@ =~= old(phases).transparent@ + q.transparent
        }),
        final (pipeline_cache).descriptors@.take(old(pipeline_cache).descriptors@.len() as int)
            =~= old(pipeline_cache).descriptors@,
        spec_memo_wf(
            final (pipelines).entries@,
            final (pipeline_cache).descriptors@,
            material_pipeline.polyline_pipeline.shader,
        ),
{
    let ghost entries0 = pipelines.entries@;
    let ghost descriptors0 = pipeline_cache.descriptors@;
    let ghost n0 = pipeline_cache.descriptors@.len() as int;
    let ghost opaque0 = phases.opaque@;
    let ghost mask0 = phases.alpha_mask@;
    let ghost transparent0 = phases.transparent@;
    let mut i: usize = 0;
    #[verifier::loop_isolation(false)]
    while i < visible_polylines.len()
        invariant
            i <= visible_polylines@.len(),
            ({
                let q = spec_queue(
                    visible_polylines@.take(i as int),
                    draw_opaque,
                    draw_alpha_mask,
                    draw_transparent,
                    msaa_samples,
                    view.hdr,
                    entries0,
                    n0,
                );
                &&& pipelines.entries@ =~= q.entries
                &&& pipeline_cache.descriptors@.len() == q.n_descriptors
                &&& phases.opaque@ =~= opaque0 + q.opaque
                &&& phases.alpha_mask@ =~= mask0 + q.alpha_mask
                &&& phases.transparent@ =~= transparent0 + q.transparent
            }),
            pipeline_cache.descriptors@.take(n0) =~= descriptors0,
            n0 <= pipeline_cache.descriptors@.len() <= n0 + i,
            pipelines.entries@.len() <= entries0.len() + i,
            spec_memo_wf(
                pipelines.entries@,
                pipeline_cache.descriptors@,
                material_pipeline.polyline_pipeline.shader,
            ),
        decreases visible_polylines@.len() - i,
    {
        let ghost q_pre = spec_queue(
            visible_polylines@.take(i as int),
            draw_opaque,
            draw_alpha_mask,
            draw_transparent,
            msaa_samples,
            view.hdr,
            entries0,
            n0,
        );
        let ghost cache_pre = pipeline_cache.descriptors@;
        let v = &visible_polylines[i];
        match &v.material {
            None => {},
            Some(m) => {
                let transparent_flag = if m.alpha_mode == AlphaMode::Blend {
                    PolylinePipelineKey::transparent_main_pass()
                } else {
                    PolylinePipelineKey::none()
                };
                let perspective_flag = if m.perspective {
                    PolylinePipelineKey::perspective()
                } else {
                    PolylinePipelineKey::none()
                };
                let clipping_flag = if m.enable_clipping {
                    PolylinePipelineKey::clipping()
                } else {
                    PolylinePipelineKey::none()
                };
                let polyline_key = PolylinePipelineKey::from_msaa_samples(msaa_samples).union(
                    PolylinePipelineKey::from_hdr(view.hdr),
                ).union(transparent_flag).union(perspective_flag).union(clipping_flag);
                proof {
                    assert(polyline_key.bits == spec_key_bits_for(msaa_samples, view.hdr, *m));
                }
                let pipeline_id = pipelines.specialize(
                    pipeline_cache,
                    material_pipeline,
                    polyline_key,
                );
                match m.alpha_mode {
                    AlphaMode::Opaque => {
                        phases.opaque.push(
                            BinnedPhaseItem {
                                key: Opaque3dBinKey {
                                    draw_function: draw_opaque,
                                    pipeline: pipeline_id,
                                    asset_id: INVALID_ASSET_ID,
                                    material_bind_group_id: Some(m.bind_group),
                                },
                                entity: v.entity,
                            },
                        );
                    },
                    AlphaMode::Mask(_) => {
                        phases.alpha_mask.push(
                            BinnedPhaseItem {
                                key: Opaque3dBinKey {
                                    draw_function: draw_alpha_mask,
                                    pipeline: pipeline_id,
                                    asset_id: INVALID_ASSET_ID,
                                    material_bind_group_id: Some(m.bind_group),
                                },
                                entity: v.entity,
                            },
                        );
                    },
                    AlphaMode::Blend | AlphaMode::Premultiplied | AlphaMode::Add
                        | AlphaMode::Multiply => {
                        phases.transparent.push(
                            Transparent3d {
                                entity: v.entity,
                                draw_function: draw_transparent,
                                pipeline: pipeline_id,
                                distance: v.view_z,
                            },
                        );
                    },
                }
            },
        }
        proof {
            assert(visible_polylines@.take(i + 1).drop_last() =~= visible_polylines@.take(
                i as int,
            ));
            assert(visible_polylines@.take(i + 1).last() == visible_polylines@[i as int]);
            let old_len = cache_pre.len() as int;
            assert(n0 <= old_len);
            assert(pipeline_cache.descriptors@.take(old_len) =~= cache_pre);
            assert forall|k: int| 0 <= k < n0 implies pipeline_cache.descriptors@[k]
                == cache_pre[k] by {
                assert(pipeline_cache.descriptors@.take(old_len)[k] == pipeline_cache.descriptors@[
                    k
                ]);
            }
            assert(pipeline_cache.descriptors@.take(n0) =~= cache_pre.take(n0));
        }
        i = i + 1;
    }
    proof {
        assert(visible_polylines@.take(visible_polylines@.len() as int) =~= visible_polylines@);
    }
}

/// The (entity, material bind group) pairs batching owes the opaque
/// phase: the materialed entities whose mode is `Opaque`, in order.
pub open spec fn spec_opaque_expected(visible: Seq<VisiblePolyline>) -> Seq<(u64, u64)>
    decreases visible.len(),
{
    if visible.len() == 0 {
        Seq::empty()
    } else {
        let r = spec_opaque_expected(visible.drop_last());
        match visible.last().material {
            None => r,
            Some(m) => if m.alpha_mode == AlphaMode::Opaque {
                r.push((visible.last().entity, m.bind_group))
            } else {
                r
            },
        }
    }
}

/// The pairs owed to the alpha-mask phase: entities whose mode masks.
pub open spec fn spec_mask_expected(visible: Seq<VisiblePolyline>) -> Seq<(u64, u64)>
    decreases visible.len(),
{
    if visible.len() == 0 {
        Seq::empty()
    } else {
        let r = spec_mask_expected(visible.drop_last());
        match visible.last().material {
            None => r,
            Some(m) => if m.alpha_mode matches AlphaMode::Mask(_) {
                r.push((visible.last().entity, m.bind_group))
            } else {
                r
            },
        }
    }
}

/// The (entity, depth) pairs owed to the transparent phase: entities
/// whose mode blends, in order, each with its view-space depth key.
pub open spec fn spec_transparent_expected(visible: Seq<VisiblePolyline>) -> Seq<(u64, i64)>
    decreases visible.len(),
{
    if visible.len() == 0 {
        Seq::empty()
    } else {
        let r = spec_transparent_expected(visible.drop_last());
        match visible.last().material {
            None => r,
            Some(m) => if m.alpha_mode.spec_is_transparent() {
                r.push((visible.last().entity, visible.last().view_z))
            } else {
                r
            },
        }
    }
}

/// Batching partitions: every visible entity with a ready material
/// lands in exactly the phase its alpha mode selects — opaque and
/// alpha-mask entries with their material's bind group and their
/// phase's draw function, transparent entries with their depth key —
/// and a transparent entity never stands in an opaque phase, nor the
/// other way round.
pub proof fn lemma_queue_phase_partition(
    visible: Seq<VisiblePolyline>,
    draw_opaque: u64,
    draw_alpha_mask: u64,
    draw_transparent: u64,
    msaa_samples: u32,
    hdr: bool,
    entries0: Seq<(u32, CachedPipelineId)>,
    n0: int,
)
    ensures
        ({
            let q = spec_queue(
                visible,
                draw_opaque,
                draw_alpha_mask,
                draw_transparent,
                msaa_samples,
                hdr,
                entries0,
                n0,
            );
            &&& q.opaque.len() == spec_opaque_expected(visible).len()
            &&& forall|j: int|
                0 <= j < q.opaque.len() ==> {
                    &&& (#[trigger] q.opaque[j]).entity == spec_opaque_expected(visible)[j].0
                    &&& q.opaque[j].key.material_bind_group_id == Some(
                        spec_opaque_expected(visible)[j].1,
                    )
                    &&& q.opaque[j].key.draw_function == draw_opaque
                }
            &&& q.alpha_mask.len() == spec_mask_expected(visible).len()
            &&& forall|j: int|
                0 <= j < q.alpha_mask.len() ==> {
                    &&& (#[trigger] q.alpha_mask[j]).entity == spec_mask_expected(visible)[j].0
                    &&& q.alpha_mask[j].key.material_bind_group_id == Some(
                        spec_mask_expected(visible)[j].1,
                    )
                    &&& q.alpha_mask[j].key.draw_function == draw_alpha_mask
                }
            &&& q.transparent.len() == spec_transparent_expected(visible).len()
            &&& forall|j: int|
                0 <= j < q.transparent.len() ==> {
                    &&& (#[trigger] q.transparent[j]).entity == spec_transparent_expected(
                        visible,
                    )[j].0
                    &&& q.transparent[j].distance == spec_transparent_expected(visible)[j].1
                    &&& q.transparent[j].draw_function == draw_transparent
                }
        }),
    decreases visible.len(),
{
    if visible.len() > 0 {
        lemma_queue_phase_partition(
            visible.drop_last(),
            draw_opaque,
            draw_alpha_mask,
            draw_transparent,
            msaa_samples,
            hdr,
            entries0,
            n0,
        );
    }
}

/// Draw-stage command binding the view's uniform bind group at slot `I`
/// with the view's dynamic offset.
pub struct SetPolylineViewBindGroup<const I: u32>;

impl<const I: u32> SetPolylineViewBindGroup<I> {
    /// Bind the view bind group.
    pub fn render(
        view_uniform_offset: u32,
        view_bind_group: &crate::polyline::PolylineViewBindGroup,
        pass: &mut crate::render_resource::TrackedRenderPass,
    ) -> (r: crate::render_resource::RenderCommandResult)
        ensures
            r is Success,
            final (pass).ops@ =~= old(pass).ops@.push(
                (crate::render_resource::PassOp::SetBindGroup {
                    index: I,
                    bind_group: view_bind_group.value,
                    dynamic_offset: Some(view_uniform_offset),
                }),
            ),
    {
        pass.set_bind_group(I, view_bind_group.value, Some(view_uniform_offset));
        crate::render_resource::RenderCommandResult::Success
    }
}

/// Draw-stage command binding the material's bind group at slot `I`.
pub struct SetMaterialBindGroup<const I: u32>;

impl<const I: u32> SetMaterialBindGroup<I> {
    /// Bind the material's bind group, or fail the item when the
    /// material asset is not ready, skipping the entity for the frame.
    pub fn render(
        material: Option<&GpuPolylineMaterial>,
        pass: &mut crate::render_resource::TrackedRenderPass,
    ) -> (r: crate::render_resource::RenderCommandResult)
        ensures
            r is Success <==> material is Some,
            material matches Some(m) ==> final (pass).ops@ =~= old(pass).ops@.push(
                (crate::render_resource::PassOp::SetBindGroup {
                    index: I,
                    bind_group: m.bind_group,
                    dynamic_offset: None,
                }),
            ),
            material is None ==> final (pass).ops@ =~= old(pass).ops@,
    {
        match material {
            Some(m) => {
                pass.set_bind_group(I, GpuPolylineMaterial::bind_group(m), None);
                crate::render_resource::RenderCommandResult::Success
            },
            None => crate::render_resource::RenderCommandResult::Failure,
        }
    }
}

/// Draw-stage command binding the half-space uniform at slot `I`.
pub struct SetHalfSpacesBindGroup<const I: u32>;

impl<const I: u32> SetHalfSpacesBindGroup<I> {
    /// Bind the packed half-space bind group.
    pub fn render(
        half_spaces_bind_group: BindGroupId,
        pass: &mut crate::render_resource::TrackedRenderPass,
    ) -> (r: crate::render_resource::RenderCommandResult)
        ensures
            r is Success,
            final (pass).ops@ =~= old(pass).ops@.push(
                (crate::render_resource::PassOp::SetBindGroup {
                    index: I,
                    bind_group: half_spaces_bind_group,
                    dynamic_offset: None,
                }),
            ),
    {
        pass.set_bind_group(I, half_spaces_bind_group, None);
        crate::render_resource::RenderCommandResult::Success
    }
}

/// The predicate selecting the transparent items at one depth.
pub open spec fn spec_dist_pred(d: i64) -> spec_fn(Transparent3d) -> bool {
    |t: Transparent3d| t.distance == d
}

/// Back-to-front order for the transparent phase: ascending depth keys.
/// With the camera looking down negative z the farthest item has the
/// smallest key and draws first; the nearest draws last.
pub open spec fn spec_sorted_back_to_front(s: Seq<Transparent3d>) -> bool {
    forall|i: int, j: int|
        0 <= i < j < s.len() ==> (#[trigger] s[i]).distance <= (#[trigger] s[j]).distance
}

/// Swapping two adjacent items keeps the sequence's multiset.
proof fn lemma_swap_adjacent_multiset<T>(s: Seq<T>, j: int)
    requires
        1 <= j < s.len(),
    ensures
        s.update(j - 1, s[j]).update(j, s[j - 1]).to_multiset() == s.to_multiset(),
{
    broadcast use vstd::seq_lib::group_to_multiset_ensures;
    broadcast use vstd::multiset::group_multiset_axioms;
    broadcast use vstd::multiset::group_multiset_properties;

    let x = s[j - 1];
    let y = s[j];
    let s1 = s.update(j - 1, y);
    let t = s1.update(j, x);
    assert(s.contains(x));
    assert(s1[j] == y);
    assert(s1.contains(y));
    assert(s1.to_multiset() == s.to_multiset().insert(y).remove(x));
    assert(t.to_multiset() == s1.to_multiset().insert(x).remove(y));
    assert(t.to_multiset() =~= s.to_multiset());
}

/// Swapping two adjacent items of which at most one satisfies a
/// predicate does not change what the predicate filters out: no two
/// selected items change relative order over an adjacent swap.
proof fn lemma_swap_adjacent_filter<T>(s: Seq<T>, j: int, pred: spec_fn(T) -> bool)
    requires
        1 <= j < s.len(),
        !(pred(s[j - 1]) && pred(s[j])),
    ensures
        s.update(j - 1, s[j]).update(j, s[j - 1]).filter(pred) == s.filter(pred),
{
    let x = s[j - 1];
    let y = s[j];
    let t = s.update(j - 1, y).update(j, x);
    let a = s.subrange(0, j - 1);
    let m1 = seq![x, y];
    let m2 = seq![y, x];
    let b = s.subrange(j + 1, s.len() as int);
    assert(s =~= a + m1 + b);
    assert(t =~= a + m2 + b);
    Seq::<T>::filter_distributes_over_add(a + m1, b, pred);
    Seq::<T>::filter_distributes_over_add(a, m1, pred);
    Seq::<T>::filter_distributes_over_add(a + m2, b, pred);
    Seq::<T>::filter_distributes_over_add(a, m2, pred);
    reveal_with_fuel(Seq::filter, 4);
    assert(m1.drop_last() =~= seq![x]);
    assert(m2.drop_last() =~= seq![y]);
    assert(seq![x].drop_last() =~= Seq::<T>::empty());
    assert(seq![y].drop_last() =~= Seq::<T>::empty());
    if pred(x) {
        assert(m1.filter(pred) =~= seq![x]);
        assert(m2.filter(pred) =~= seq![x]);
    } else if pred(y) {
        assert(m1.filter(pred) =~= seq![y]);
        assert(m2.filter(pred) =~= seq![y]);
    } else {
        assert(m1.filter(pred) =~= Seq::<T>::empty());
        assert(m2.filter(pred) =~= Seq::<T>::empty());
    }
    assert(t.filter(pred) =~= s.filter(pred));
}

/// Sort the transparent phase back to front by depth key, stably: the
/// multiset of items is kept, the result ascends in `distance`, and
/// items at equal depth keep their submission order — the filter at
/// every depth is unchanged.  Required for correct blending: farther
/// transparent items must be submitted before nearer ones.
pub fn sort_transparent_phase(transparent: &mut Vec<Transparent3d>)
    ensures
        spec_sorted_back_to_front(final (transparent)@),
        final (transparent)@.to_multiset() == old(transparent)@.to_multiset(),
        forall|d: i64| #[trigger] final (transparent)@.filter(spec_dist_pred(d)) == old(
            transparent,
        )@.filter(spec_dist_pred(d)),
{
    let ghost unsorted = transparent@;
    let mut i: usize = 1;
    #[verifier::loop_isolation(false)]
    while i < transparent.len()
        invariant
            1 <= i,
            transparent@.len() == unsorted.len(),
            transparent@.to_multiset() == unsorted.to_multiset(),
            forall|d: i64| #[trigger] transparent@.filter(spec_dist_pred(d)) == unsorted.filter(
                spec_dist_pred(d),
            ),
            forall|k1: int, k2: int|
                0 <= k1 < k2 < i && k2 < transparent@.len() ==> (#[trigger] transparent@[
                    k1
                ]).distance <= (#[trigger] transparent@[k2]).distance,
        decreases transparent@.len() - i,
    {
        let mut j: usize = i;
        #[verifier::loop_isolation(false)]
        while j > 0 && transparent[j - 1].distance > transparent[j].distance
            invariant
                j <= i < transparent@.len(),
                transparent@.len() == unsorted.len(),
                transparent@.to_multiset() == unsorted.to_multiset(),
                forall|d: i64| #[trigger] transparent@.filter(spec_dist_pred(d))
                    == unsorted.filter(spec_dist_pred(d)),
                forall|k1: int, k2: int|
                    0 <= k1 < k2 <= i && k1 != j && k2 != j ==> (#[trigger] transparent@[
                        k1
                    ]).distance <= (#[trigger] transparent@[k2]).distance,
                forall|k: int|
                    j < k <= i ==> (#[trigger] transparent@[k]).distance >= transparent@[
                        j as int
                    ].distance,
            decreases j,
        {
            let ghost before = transparent@;
            let x = transparent[j - 1];
            let y = transparent[j];
            transparent.set(j - 1, y);
            transparent.set(j, x);
            proof {
                assert(transparent@ =~= before.update(j - 1, before[j as int]).update(
                    j as int,
                    before[j - 1],
                ));
                lemma_swap_adjacent_multiset(before, j as int);
                assert forall|d: i64| #[trigger] transparent@.filter(spec_dist_pred(d))
                    == unsorted.filter(spec_dist_pred(d)) by {
                    assert(!(spec_dist_pred(d)(before[j - 1]) && spec_dist_pred(d)(
                        before[j as int],
                    )));
                    lemma_swap_adjacent_filter(before, j as int, spec_dist_pred(d));
                }
            }
            j = j - 1;
        }
        proof {
            assert forall|k1: int, k2: int| 0 <= k1 < k2 <= i implies (#[trigger] transparent@[
                k1
            ]).distance <= (#[trigger] transparent@[k2]).distance by {
                if k1 == j {
                    assert(transparent@[k2].distance >= transparent@[j as int].distance);
                } else if k2 == j {
                    assert(j > 0);
                    assert(transparent@[j - 1].distance <= transparent@[j as int].distance);
                    if k1 < j - 1 {
                        assert(transparent@[k1].distance <= transparent@[j - 1].distance);
                    }
                }
            }
        }
        i = i + 1;
    }
}

/// Rank of a material bind group in the binned order; items without
/// one come first.
pub open spec fn spec_bind_group_rank(bind_group: Option<BindGroupId>) -> int {
    match bind_group {
        None => -1,
        Some(id) => id as int,
    }
}

/// The state-change order of a binned phase: by pipeline first, then by
/// material bind group, so items sharing pipeline state draw together;
/// never by depth.
pub open spec fn spec_bin_le(a: BinnedPhaseItem, b: BinnedPhaseItem) -> bool {
    ||| a.key.pipeline < b.key.pipeline
    ||| (a.key.pipeline == b.key.pipeline && spec_bind_group_rank(a.key.material_bind_group_id)
        <= spec_bind_group_rank(b.key.material_bind_group_id))
}

/// The predicate selecting the items of one (pipeline, bind group) bin.
pub open spec fn spec_bin_pred(pipeline: CachedPipelineId, rank: int) -> spec_fn(
    BinnedPhaseItem,
) -> bool {
    |it: BinnedPhaseItem|
        it.key.pipeline == pipeline && spec_bind_group_rank(it.key.material_bind_group_id) == rank
}

/// Whether `a` draws no later than `b` in a binned phase.
fn bin_le(a: BinnedPhaseItem, b: BinnedPhaseItem) -> (r: bool)
    ensures
        r == spec_bin_le(a, b),
{
    if a.key.pipeline < b.key.pipeline {
        true
    } else if a.key.pipeline == b.key.pipeline {
        match (a.key.material_bind_group_id, b.key.material_bind_group_id) {
            (None, _) => true,
            (Some(x), None) => false,
            (Some(x), Some(y)) => x <= y,
        }
    } else {
        false
    }
}

/// Sort a binned (opaque or alpha-mask) phase by pipeline and
/// bind-group identity, stably: the multiset of items is kept, the
/// result is ordered bin by bin, and items of one bin keep their
/// submission order.  Grouping state changes this way minimizes
/// pipeline and bind-group switches while drawing.
pub fn sort_binned_phase(phase: &mut Vec<BinnedPhaseItem>)
    ensures
        forall|i: int, j: int|
            0 <= i < j < final (phase)@.len() ==> #[trigger] spec_bin_le(
                final (phase)@[i],
                final (phase)@[j],
            ),
        final (phase)@.to_multiset() == old(phase)@.to_multiset(),
        forall|pipeline: CachedPipelineId, rank: int| #[trigger] final (phase)@.filter(
            spec_bin_pred(pipeline, rank),
        ) == old(phase)@.filter(spec_bin_pred(pipeline, rank)),
{
    let ghost unsorted = phase@;
    let mut i: usize = 1;
    #[verifier::loop_isolation(false)]
    while i < phase.len()
        invariant
            1 <= i,
            phase@.len() == unsorted.len(),
            phase@.to_multiset() == unsorted.to_multiset(),
            forall|pipeline: CachedPipelineId, rank: int| #[trigger] phase@.filter(
                spec_bin_pred(pipeline, rank),
            ) == unsorted.filter(spec_bin_pred(pipeline, rank)),
            forall|k1: int, k2: int|
                0 <= k1 < k2 < i && k2 < phase@.len() ==> #[trigger] spec_bin_le(
                    phase@[k1],
                    phase@[k2],
                ),
        decreases phase@.len() - i,
    {
        let mut j: usize = i;
        #[verifier::loop_isolation(false)]
        while j > 0 && !bin_le(phase[j - 1], phase[j])
            invariant
                j <= i < phase@.len(),
                phase@.len() == unsorted.len(),
                phase@.to_multiset() == unsorted.to_multiset(),
                forall|pipeline: CachedPipelineId, rank: int| #[trigger] phase@.filter(
                    spec_bin_pred(pipeline, rank),
                ) == unsorted.filter(spec_bin_pred(pipeline, rank)),
                forall|k1: int, k2: int|
                    0 <= k1 < k2 <= i && k1 != j && k2 != j ==> #[trigger] spec_bin_le(
                        phase@[k1],
                        phase@[k2],
                    ),
                forall|k: int|
                    j < k <= i ==> #[trigger] spec_bin_le(phase@[j as int], phase@[k]),
            decreases j,
        {
            let ghost before = phase@;
            let x = phase[j - 1];
            let y = phase[j];
            phase.set(j - 1, y);
            phase.set(j, x);
            proof {
                assert(phase@ =~= before.update(j - 1, before[j as int]).update(
                    j as int,
                    before[j - 1],
                ));
                lemma_swap_adjacent_multiset(before, j as int);
                assert forall|pipeline: CachedPipelineId, rank: int| #[trigger] phase@.filter(
                    spec_bin_pred(pipeline, rank),
                ) == unsorted.filter(spec_bin_pred(pipeline, rank)) by {
                    assert(!(spec_bin_pred(pipeline, rank)(before[j - 1]) && spec_bin_pred(
                        pipeline,
                        rank,
                    )(before[j as int])));
                    lemma_swap_adjacent_filter(before, j as int, spec_bin_pred(pipeline, rank));
                }
            }
            j = j - 1;
        }
        proof {
            assert forall|k1: int, k2: int| 0 <= k1 < k2 <= i implies #[trigger] spec_bin_le(
                phase@[k1],
                phase@[k2],
            ) by {
                if k1 == j {
                    assert(spec_bin_le(phase@[j as int], phase@[k2]));
                } else if k2 == j {
                    assert(j > 0);
                    assert(spec_bin_le(phase@[j - 1], phase@[j as int]));
                    if k1 < j - 1 {
                        assert(spec_bin_le(phase@[k1], phase@[j - 1]));
                    }
                }
            }
        }
        i = i + 1;
    }
}

/// Draw one batched phase item, executing the draw stage's fixed
/// command sequence in order: bind the item's specialized pipeline, the
/// view, polyline, material and half-space bind groups at slots zero to
/// three, then issue the polyline's instanced draw.
///
/// A missing dynamic uniform index, material or GPU polyline fails the
/// item — the host logs it and skips the entity for this frame — and
/// recording stops at the failed command.
pub fn draw_polyline_material(
    item_pipeline: CachedPipelineId,
    view_uniform_offset: u32,
    view_bind_group: &crate::polyline::PolylineViewBindGroup,
    polyline_index: Option<u32>,
    polyline_bind_group: &crate::polyline::PolylineBindGroup,
    material: Option<&GpuPolylineMaterial>,
    half_spaces_bind_group: BindGroupId,
    gpu_polyline: Option<&crate::polyline::GpuPolyline>,
    pass: &mut crate::render_resource::TrackedRenderPass,
) -> (r: crate::render_resource::RenderCommandResult)
    requires
        gpu_polyline matches Some(g) ==> g.spec_wf(),
    ensures
        ({
            let op_pipeline = (crate::render_resource::PassOp::SetRenderPipeline {
                id: item_pipeline,
            });
            let op_view = (crate::render_resource::PassOp::SetBindGroup {
                index: 0,
                bind_group: view_bind_group.value,
                dynamic_offset: Some(view_uniform_offset),
            });
            let op_half_spaces = (crate::render_resource::PassOp::SetBindGroup {
                index: 3,
                bind_group: half_spaces_bind_group,
                dynamic_offset: None,
            });
            &&& (r is Success <==> polyline_index is Some && material is Some && gpu_polyline
                is Some)
            &&& polyline_index is None ==> final (pass).ops@ =~= old(pass).ops@ + seq![
                op_pipeline,
                op_view,
            ]
            &&& (polyline_index matches Some(dynamic_index) ==> {
                let op_polyline = (crate::render_resource::PassOp::SetBindGroup {
                    index: 1,
                    bind_group: polyline_bind_group.value,
                    dynamic_offset: Some(dynamic_index),
                });
                &&& material is None ==> final (pass).ops@ =~= old(pass).ops@ + seq![
                    op_pipeline,
                    op_view,
                    op_polyline,
                ]
                &&& (material matches Some(m) ==> {
                    let op_material = (crate::render_resource::PassOp::SetBindGroup {
                        index: 2,
                        bind_group: m.bind_group,
                        dynamic_offset: None,
                    });
                    &&& gpu_polyline is None ==> final (pass).ops@ =~= old(pass).ops@ + seq![
                        op_pipeline,
                        op_view,
                        op_polyline,
                        op_material,
                        op_half_spaces,
                    ]
                    &&& (gpu_polyline matches Some(g) ==> (g.vertex_count < 2 ==> final (pass).ops@ =~= old(pass).ops@ + seq![
                        op_pipeline,
                        op_view,
                        op_polyline,
                        op_material,
                        op_half_spaces,
                    ]))
                    &&& (gpu_polyline matches Some(g) ==> (g.vertex_count >= 2 ==> final (pass).ops@ =~= old(pass).ops@ + seq![
                        op_pipeline,
                        op_view,
                        op_polyline,
                        op_material,
                        op_half_spaces,
                        (crate::render_resource::PassOp::SetVertexBuffer {
                            slot: 0,
                            buffer: g.vertex_buffer.id,
                            offset: 0,
                            size: (g.vertex_buffer.contents@.len() - 12) as u64,
                        }),
                        (crate::render_resource::PassOp::SetVertexBuffer {
                            slot: 1,
                            buffer: g.vertex_buffer.id,
                            offset: 12,
                            size: (g.vertex_buffer.contents@.len() - 12) as u64,
                        }),
                        (crate::render_resource::PassOp::Draw {
                            vertices: 6,
                            instances: crate::polyline::spec_draw_instances(g.vertex_count),
                        }),
                    ]))
                })
            })
        }),
{
    pass.set_render_pipeline(item_pipeline);
    let r = SetPolylineViewBindGroup::<0>::render(view_uniform_offset, view_bind_group, pass);
    let r = crate::polyline::SetPolylineBindGroup::<1>::render(
        polyline_index,
        polyline_bind_group,
        pass,
    );
    if matches!(r, crate::render_resource::RenderCommandResult::Failure) {
        return r;
    }
    let r = SetMaterialBindGroup::<2>::render(material, pass);
    if matches!(r, crate::render_resource::RenderCommandResult::Failure) {
        return r;
    }
    let r = SetHalfSpacesBindGroup::<3>::render(half_spaces_bind_group, pass);
    crate::polyline::DrawPolyline::render(gpu_polyline, pass)
}

} // verus!
