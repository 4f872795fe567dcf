use bevy_polyline::key::PolylinePipelineKey;

#[test]
fn msaa_round_trip_for_powers_of_two() {
    let counts: [u32; 7] = [1, 2, 4, 8, 16, 32, 64];
    for x in counts {
        assert_eq!(PolylinePipelineKey::from_msaa_samples(x).msaa_samples(), x);
    }
    assert_eq!(PolylinePipelineKey::from_msaa_samples(128).msaa_samples(), 128);
}

#[test]
fn msaa_field_is_log2_in_the_top_three_bits() {
    assert_eq!(PolylinePipelineKey::from_msaa_samples(1).bits(), 0);
    assert_eq!(PolylinePipelineKey::from_msaa_samples(2).bits(), 0x2000_0000);
    assert_eq!(PolylinePipelineKey::from_msaa_samples(4).bits(), 0x4000_0000);
    assert_eq!(PolylinePipelineKey::from_msaa_samples(8).bits(), 0x6000_0000);
    assert_eq!(PolylinePipelineKey::from_msaa_samples(128).bits(), 0xE000_0000);
}

#[test]
fn msaa_of_other_counts_keeps_low_three_bits_of_trailing_zeros() {
    // 0 has 32 trailing zeros, 256 has 8: both leave 0 in the field.
    assert_eq!(PolylinePipelineKey::from_msaa_samples(0).msaa_samples(), 1);
    assert_eq!(PolylinePipelineKey::from_msaa_samples(256).msaa_samples(), 1);
    // 3 has no trailing zero, 12 has two.
    assert_eq!(PolylinePipelineKey::from_msaa_samples(3).msaa_samples(), 1);
    assert_eq!(PolylinePipelineKey::from_msaa_samples(12).msaa_samples(), 4);
}

#[test]
fn mode_flags_and_msaa_field_never_overlap() {
    assert_eq!(
        (PolylinePipelineKey::PERSPECTIVE
            | PolylinePipelineKey::TRANSPARENT_MAIN_PASS
            | PolylinePipelineKey::HDR)
            & PolylinePipelineKey::MSAA_RESERVED_BITS,
        0
    );
    assert_eq!(
        PolylinePipelineKey::MSAA_RESERVED_BITS,
        PolylinePipelineKey::MSAA_MASK_BITS << PolylinePipelineKey::MSAA_SHIFT_BITS
    );
}

#[test]
fn flag_values() {
    assert_eq!(PolylinePipelineKey::NONE, 0);
    assert_eq!(PolylinePipelineKey::PERSPECTIVE, 1);
    assert_eq!(PolylinePipelineKey::TRANSPARENT_MAIN_PASS, 2);
    assert_eq!(PolylinePipelineKey::HDR, 4);
    assert_eq!(PolylinePipelineKey::MSAA_RESERVED_BITS, 0xE000_0000);
}

#[test]
fn from_hdr_sets_hdr_only() {
    assert_eq!(PolylinePipelineKey::from_hdr(true).bits(), PolylinePipelineKey::HDR);
    assert_eq!(PolylinePipelineKey::from_hdr(false).bits(), PolylinePipelineKey::NONE);
    assert!(PolylinePipelineKey::from_hdr(true).contains(PolylinePipelineKey::HDR));
    assert!(!PolylinePipelineKey::from_hdr(false).contains(PolylinePipelineKey::HDR));
}

#[test]
fn contains_asks_for_every_bit() {
    let key = PolylinePipelineKey::from_bits_retain(
        PolylinePipelineKey::PERSPECTIVE | PolylinePipelineKey::HDR,
    );
    assert!(key.contains(PolylinePipelineKey::PERSPECTIVE));
    assert!(key.contains(PolylinePipelineKey::HDR));
    assert!(key.contains(PolylinePipelineKey::PERSPECTIVE | PolylinePipelineKey::HDR));
    assert!(!key.contains(PolylinePipelineKey::TRANSPARENT_MAIN_PASS));
    assert!(!key.contains(PolylinePipelineKey::PERSPECTIVE | PolylinePipelineKey::TRANSPARENT_MAIN_PASS));
    assert!(key.contains(PolylinePipelineKey::NONE));
}

#[test]
fn union_keeps_sample_count_and_flags() {
    let msaa = PolylinePipelineKey::from_msaa_samples(8);
    let key = msaa
        .union(PolylinePipelineKey::from_hdr(true))
        .union(PolylinePipelineKey::from_bits_retain(PolylinePipelineKey::PERSPECTIVE));
    assert_eq!(key.bits(), 0x6000_0005);
    assert_eq!(key.msaa_samples(), 8);
    assert!(key.contains(PolylinePipelineKey::HDR));
    assert!(key.contains(PolylinePipelineKey::PERSPECTIVE));
    assert!(!key.contains(PolylinePipelineKey::TRANSPARENT_MAIN_PASS));
}

#[test]
fn from_bits_retain_keeps_unnamed_bits() {
    let key = PolylinePipelineKey::from_bits_retain(0x0000_0100);
    assert_eq!(key.bits(), 0x0000_0100);
    assert_eq!(key.msaa_samples(), 1);
    assert_eq!(key, PolylinePipelineKey::from_bits_retain(0x0000_0100));
}
