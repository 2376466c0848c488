use polyline_render::material::{
    AlphaMode, Color, GpuPolylineMaterial, PolylineMaterial, PolylineMaterialUniform,
    DEFAULT_WIDTH, FIXED_ONE,
};
use polyline_render::render_resource::{BindGroupLayout, RenderDevice};

fn red_with_alpha(alpha: u32) -> Color {
    Color { red: FIXED_ONE, green: 0, blue: 0, alpha }
}

#[test]
fn full_alpha_is_opaque() {
    let material = PolylineMaterial { color: red_with_alpha(FIXED_ONE), ..Default::default() };
    assert_eq!(material.alpha_mode(), AlphaMode::Opaque);
    // The mapping is pure: the same material answers the same every call.
    assert_eq!(material.alpha_mode(), AlphaMode::Opaque);
}

#[test]
fn reduced_alpha_blends() {
    let half = FIXED_ONE / 2;
    let material = PolylineMaterial { color: red_with_alpha(half), ..Default::default() };
    assert_eq!(material.alpha_mode(), AlphaMode::Blend);
    let nearly_one = FIXED_ONE - 1;
    let material = PolylineMaterial { color: red_with_alpha(nearly_one), ..Default::default() };
    assert_eq!(material.alpha_mode(), AlphaMode::Blend);
}

#[test]
fn over_full_alpha_is_still_opaque() {
    let material = PolylineMaterial { color: red_with_alpha(FIXED_ONE + 7), ..Default::default() };
    assert_eq!(material.alpha_mode(), AlphaMode::Opaque);
}

#[test]
fn default_material() {
    let material = PolylineMaterial::default();
    assert_eq!(material.width, DEFAULT_WIDTH);
    // Ten pixels in 16.16 fixed point.
    assert_eq!(material.width, 10 << 16);
    assert_eq!(material.color, Color { red: FIXED_ONE, green: FIXED_ONE, blue: FIXED_ONE, alpha: FIXED_ONE });
    assert_eq!(material.depth_bias, 0);
    assert!(!material.perspective);
    assert!(!material.enable_clipping);
}

#[test]
fn uniform_words_layout() {
    let uniform = PolylineMaterialUniform {
        color: Color { red: 1, green: 2, blue: 3, alpha: 4 },
        depth_bias: -1,
        width: DEFAULT_WIDTH,
    };
    let words = uniform.words();
    assert_eq!(words, vec![1, 2, 3, 4, 0xFFFF_FFFF, DEFAULT_WIDTH]);
}

#[test]
fn uniform_words_negative_bias_is_twos_complement() {
    let uniform = PolylineMaterialUniform {
        color: Color { red: 0, green: 0, blue: 0, alpha: 0 },
        depth_bias: -(FIXED_ONE as i32),
        width: 0,
    };
    let words = uniform.words();
    assert_eq!(words[4], (-(FIXED_ONE as i32)) as u32);
}

#[test]
fn prepare_asset_fixes_flags_and_mode() {
    let mut device = RenderDevice::new();
    let material = PolylineMaterial {
        color: red_with_alpha(FIXED_ONE / 2),
        perspective: true,
        enable_clipping: true,
        ..Default::default()
    };
    let gpu = GpuPolylineMaterial::prepare_asset(&material, &mut device);
    assert_eq!(gpu.alpha_mode, AlphaMode::Blend);
    assert!(gpu.perspective);
    assert!(gpu.enable_clipping);
    // Uniform buffer first, bind group second.
    assert_eq!(gpu.buffer.id, 0);
    assert_eq!(gpu.bind_group, 1);
    // Six words of sixteen-bit fixed point, four bytes each.
    assert_eq!(gpu.buffer.contents.len(), 24);
    assert_eq!(GpuPolylineMaterial::bind_group(&gpu), gpu.bind_group);
    assert_eq!(GpuPolylineMaterial::dynamic_uniform_indices(&gpu), None);
}

#[test]
fn material_layout_is_the_material_slot() {
    assert_eq!(PolylineMaterial::bind_group_layout(), BindGroupLayout::MaterialLayout);
}
