use polyline_render::clipping::{
    prepare_half_spaces, ClippingSettings, HalfSpace, HalfSpaceData, MAX_HALF_SPACES,
    PACKED_HALF_SPACE_WORDS,
};
use polyline_render::render_resource::words_to_le_bytes;

fn plane(normal: (f32, f32, f32), d: f32) -> HalfSpace {
    HalfSpace {
        normal_x: normal.0.to_bits(),
        normal_y: normal.1.to_bits(),
        normal_z: normal.2.to_bits(),
        d: d.to_bits(),
    }
}

#[test]
fn packing_is_idempotent_over_clear_and_push() {
    let planes = [
        plane((1.0, 0.0, 0.0), -2.5),
        plane((0.0, -1.0, 0.0), 0.25),
        plane((0.0, 0.0, 1.0), 7.125),
    ];
    let mut settings = ClippingSettings::new();
    for p in planes {
        settings.push(p);
    }
    let first = prepare_half_spaces(&settings);

    settings.clear();
    assert_eq!(settings.len(), 0);
    for p in planes {
        settings.push(p);
    }
    let second = prepare_half_spaces(&settings);

    assert_eq!(first.buffer, second.buffer);
}

#[test]
fn packing_eleven_planes_encodes_exactly_ten() {
    let mut settings = ClippingSettings::new();
    for i in 0..11 {
        settings.push(plane((i as f32, 0.0, 0.0), 1.0));
    }
    assert_eq!(settings.len(), 11);

    let data = HalfSpaceData::from_half_spaces(&settings.extract_resource().half_spaces);
    assert_eq!(data.words.len(), PACKED_HALF_SPACE_WORDS);
    // The count word group says ten, four times over for alignment.
    for k in 0..4 {
        assert_eq!(data.words[k], MAX_HALF_SPACES as u32);
    }
    // The first ten planes are encoded; the eleventh is gone.
    for p in 0..MAX_HALF_SPACES {
        assert_eq!(data.words[4 + 4 * p], (p as f32).to_bits());
        assert_eq!(data.words[4 + 4 * p + 3], 1.0f32.to_bits());
    }
    assert!(!data.words.contains(&10.0f32.to_bits()));
}

#[test]
fn packing_pads_unused_slots_with_zeros() {
    let mut settings = ClippingSettings::new();
    settings.push(plane((0.0, 1.0, 0.0), -4.0));
    let data = HalfSpaceData::from_half_spaces(&settings.half_spaces);
    assert_eq!(data.words[0], 1);
    assert_eq!(data.words[4], 0.0f32.to_bits());
    assert_eq!(data.words[5], 1.0f32.to_bits());
    assert_eq!(data.words[6], 0.0f32.to_bits());
    assert_eq!(data.words[7], (-4.0f32).to_bits());
    for k in 8..PACKED_HALF_SPACE_WORDS {
        assert_eq!(data.words[k], 0);
    }
}

#[test]
fn packed_uniform_is_176_bytes() {
    let settings = ClippingSettings::new();
    let uniform = prepare_half_spaces(&settings);
    assert_eq!(uniform.buffer.len(), 176);
    assert!(uniform.buffer.iter().all(|&b| b == 0));
}

#[test]
fn word_serialization_matches_a_pod_cast() {
    // The byte stream must match what reinterpreting the words in
    // memory yields on this (little-endian) target.
    let words: Vec<u32> = vec![1, 0x0102_0304, 0xFFFF_0000, (-2.5f32).to_bits()];
    let bytes = words_to_le_bytes(&words);
    let cast: &[u8] = bytemuck::cast_slice(words.as_slice());
    assert_eq!(bytes.as_slice(), cast);
}

#[test]
fn packed_bytes_match_a_pod_cast_of_the_plane_floats() {
    let mut settings = ClippingSettings::new();
    settings.push(plane((0.5, -1.5, 2.0), 3.75));
    let uniform = prepare_half_spaces(&settings);

    let mut expected_words: Vec<u32> = vec![1; 4];
    for f in [0.5f32, -1.5, 2.0, 3.75] {
        expected_words.push(f.to_bits());
    }
    expected_words.resize(PACKED_HALF_SPACE_WORDS, 0);
    let expected: &[u8] = bytemuck::cast_slice(expected_words.as_slice());
    assert_eq!(uniform.buffer.as_slice(), expected);
}
