use polyline_render::polyline::{
    PolylinePipelineKey, CLIPPING_BIT, HDR_BIT, PERSPECTIVE_BIT, TRANSPARENT_MAIN_PASS_BIT,
};

#[test]
fn msaa_samples_round_trip() {
    for samples in [1u32, 2, 4, 8, 16] {
        let key = PolylinePipelineKey::from_msaa_samples(samples);
        assert_eq!(key.msaa_samples(), samples);
    }
}

#[test]
fn msaa_samples_round_trip_high_counts() {
    for samples in [32u32, 64, 128] {
        let key = PolylinePipelineKey::from_msaa_samples(samples);
        assert_eq!(key.msaa_samples(), samples);
    }
}

#[test]
fn msaa_bits_sit_in_the_high_bits() {
    let key = PolylinePipelineKey::from_msaa_samples(4);
    assert_eq!(key.bits(), 2 << 29);
    assert_eq!(PolylinePipelineKey::from_msaa_samples(1).bits(), 0);
}

#[test]
fn from_hdr_sets_only_the_hdr_bit() {
    assert_eq!(PolylinePipelineKey::from_hdr(true).bits(), HDR_BIT);
    assert_eq!(PolylinePipelineKey::from_hdr(false).bits(), 0);
}

#[test]
fn union_and_contains() {
    let key = PolylinePipelineKey::perspective().union(PolylinePipelineKey::clipping());
    assert_eq!(key.bits(), PERSPECTIVE_BIT | CLIPPING_BIT);
    assert!(key.contains(PolylinePipelineKey::perspective()));
    assert!(key.contains(PolylinePipelineKey::clipping()));
    assert!(!key.contains(PolylinePipelineKey::transparent_main_pass()));
    assert!(!key.contains(PolylinePipelineKey::hdr()));
}

#[test]
fn option_bits_are_distinct() {
    let bits = [PERSPECTIVE_BIT, TRANSPARENT_MAIN_PASS_BIT, HDR_BIT, CLIPPING_BIT];
    for (i, a) in bits.iter().enumerate() {
        assert_eq!(a.count_ones(), 1);
        for b in bits.iter().skip(i + 1) {
            assert_eq!(a & b, 0);
        }
    }
}
