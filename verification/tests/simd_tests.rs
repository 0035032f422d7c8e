//! Tests of instruction-set tier tags.

use vello_bench::simd::{
    available_level_infos, available_levels, detect_simd_level, level_from_suffix, level_suffix,
    levels_up_to, SimdLevel,
};

const ALL: [SimdLevel; 7] = [
    SimdLevel::Fallback,
    SimdLevel::WasmSimd128,
    SimdLevel::Neon,
    SimdLevel::Sse2,
    SimdLevel::Sse42,
    SimdLevel::Avx2,
    SimdLevel::Avx512,
];

#[test]
fn suffixes_round_trip() {
    for l in ALL {
        assert_eq!(level_from_suffix(level_suffix(l)), Some(l));
    }
    assert_eq!(level_suffix(SimdLevel::Sse42), "sse4_2");
    assert_eq!(level_from_suffix("not_a_level"), None);
    assert_eq!(level_from_suffix(""), None);
}

#[test]
fn level_chains_are_ordered_weakest_first() {
    assert_eq!(levels_up_to(SimdLevel::Fallback), vec![SimdLevel::Fallback]);
    assert_eq!(
        levels_up_to(SimdLevel::Avx512),
        vec![
            SimdLevel::Fallback,
            SimdLevel::Sse2,
            SimdLevel::Sse42,
            SimdLevel::Avx2,
            SimdLevel::Avx512,
        ]
    );
    assert_eq!(
        levels_up_to(SimdLevel::Neon),
        vec![SimdLevel::Fallback, SimdLevel::Neon]
    );
}

#[test]
fn available_levels_start_at_fallback() {
    let levels = available_levels();
    assert!(!levels.is_empty());
    assert_eq!(levels[0], SimdLevel::Fallback);
    let detected = detect_simd_level();
    assert_eq!(levels, levels_up_to(detected));
}

#[test]
fn level_infos_pair_levels_with_their_suffixes() {
    let infos = available_level_infos();
    assert!(!infos.is_empty());
    for info in &infos {
        assert_eq!(info.suffix, level_suffix(info.level));
    }
}
