//! Tests of the scene registry, listing and identifier resolution.

use vello_bench::benchmarks::{scene_cpu, scene_hybrid, scene_skia, vello_cpu, vello_hybrid};
use vello_bench::registry::{
    get_benchmark_list, resolve_benchmark, scene_name_from_file, Backend, SceneRegistry,
};
use vello_bench::simd::SimdLevel;

fn sample_registry() -> SceneRegistry {
    let mut reg = SceneRegistry::new();
    assert!(reg.add("alpha".to_string(), 640, 480));
    assert!(reg.add("beta".to_string(), 1024, 768));
    reg
}

#[test]
fn add_rejects_duplicate_names() {
    let mut reg = sample_registry();
    assert!(!reg.add("alpha".to_string(), 100, 100));
    assert_eq!(reg.len(), 2);
}

#[test]
fn lookup_is_idempotent() {
    let reg = sample_registry();
    let first = reg.find("alpha").expect("registered");
    let (n1, w1, h1) = (first.name.clone(), first.width, first.height);
    let second = reg.find("alpha").expect("registered");
    assert_eq!(n1, second.name);
    assert_eq!(w1, second.width);
    assert_eq!(h1, second.height);
    assert_eq!(w1, 640);
    assert_eq!(h1, 480);
    assert!(reg.find("gamma").is_none());
}

#[test]
fn category_lists_compose_ids() {
    let reg = sample_registry();
    let cpu = scene_cpu::list(&reg);
    assert_eq!(cpu.len(), 2);
    assert_eq!(cpu[0].id, "scene_cpu/alpha");
    assert_eq!(cpu[0].category, "scene_cpu");
    assert_eq!(cpu[0].name, "alpha");
    assert_eq!(cpu[1].id, "scene_cpu/beta");
    let hybrid = scene_hybrid::list(&reg);
    assert_eq!(hybrid[1].id, "scene_hybrid/beta");
    let skia = scene_skia::list(&reg);
    assert_eq!(skia[0].id, "scene_skia/alpha");
    let vc = vello_cpu::list();
    assert_eq!(vc.len(), 24);
    assert_eq!(vc[0].id, "vello_cpu/filled_rects");
    let vh = vello_hybrid::list();
    assert_eq!(vh[23].id, "vello_hybrid/paths_and_images_100");
}

#[test]
fn full_list_covers_every_category() {
    let reg = sample_registry();
    let all = get_benchmark_list(&reg);
    assert_eq!(all.len(), 3 * 2 + 2 * 24);
    assert_eq!(all[0].id, "scene_cpu/alpha");
    assert_eq!(all[2].id, "scene_hybrid/alpha");
    assert_eq!(all[4].id, "scene_skia/alpha");
    assert_eq!(all[6].id, "vello_cpu/filled_rects");
    assert_eq!(all[30].id, "vello_hybrid/filled_rects");
}

#[test]
fn every_listed_id_resolves() {
    let reg = sample_registry();
    let all = get_benchmark_list(&reg);
    for info in &all {
        let resolved = resolve_benchmark(&reg, &info.id);
        assert!(resolved.is_some(), "listed id must resolve: {}", info.id);
        let rb = resolved.unwrap();
        assert_eq!(info.id, format!("{}/{}", info.category, rb.name));
    }
}

#[test]
fn resolution_reports_backend_and_dimensions() {
    let reg = sample_registry();
    let rb = resolve_benchmark(&reg, "scene_cpu/alpha").expect("listed");
    assert!(matches!(rb.backend, Backend::SceneCpu));
    assert_eq!(rb.name, "alpha");
    assert_eq!(rb.width, 640);
    assert_eq!(rb.height, 480);
    let rb = resolve_benchmark(&reg, "vello_cpu/filled_rects").expect("listed");
    assert!(matches!(rb.backend, Backend::VelloCpu));
    assert_eq!(rb.width, 1024);
    assert_eq!(rb.height, 768);
    let rb = resolve_benchmark(&reg, "vello_hybrid/tiled_flowers_300").expect("listed");
    assert!(matches!(rb.backend, Backend::VelloHybrid));
    assert_eq!(rb.width, 1920);
    assert_eq!(rb.height, 1080);
}

#[test]
fn unknown_ids_do_not_resolve() {
    let reg = sample_registry();
    assert!(resolve_benchmark(&reg, "scene_cpu/gamma").is_none());
    assert!(resolve_benchmark(&reg, "unknown_category/alpha").is_none());
    assert!(resolve_benchmark(&reg, "scene_cpu").is_none());
    assert!(resolve_benchmark(&reg, "").is_none());
    assert!(resolve_benchmark(&reg, "vello_cpu/not_a_scene").is_none());
}

#[test]
fn names_containing_slashes_resolve_by_full_id() {
    let mut reg = SceneRegistry::new();
    assert!(reg.add("nested/scene".to_string(), 320, 200));
    let rb = resolve_benchmark(&reg, "scene_cpu/nested/scene").expect("listed");
    assert_eq!(rb.name, "nested/scene");
    assert_eq!(rb.width, 320);
}

#[test]
fn archive_file_names_yield_scene_names() {
    assert_eq!(
        scene_name_from_file("gallery.anyrender.zip"),
        Some("gallery".to_string())
    );
    assert_eq!(scene_name_from_file(".anyrender.zip"), Some(String::new()));
    assert_eq!(scene_name_from_file("gallery.zip"), None);
    assert_eq!(scene_name_from_file("gallery"), None);
    assert_eq!(scene_name_from_file(""), None);
}

#[test]
fn plans_carry_identity_and_dimensions() {
    let reg = sample_registry();
    let p = scene_cpu::plan(&reg, "beta", SimdLevel::Avx2).expect("registered");
    assert_eq!(p.id, "scene_cpu/beta");
    assert_eq!(p.category, "scene_cpu");
    assert_eq!(p.name, "beta");
    assert_eq!(p.simd_variant, "avx2");
    assert_eq!(p.width, 1024);
    assert_eq!(p.height, 768);
    let p = scene_skia::plan(&reg, "alpha").expect("registered");
    assert_eq!(p.simd_variant, "n/a");
    let p = vello_cpu::plan("overlapping_images_100", SimdLevel::Sse42).expect("in table");
    assert_eq!(p.id, "vello_cpu/overlapping_images_100");
    assert_eq!(p.simd_variant, "sse4_2");
    assert_eq!(p.width, 1920);
    assert!(scene_hybrid::plan(&reg, "gamma", SimdLevel::Fallback).is_none());
    assert!(vello_hybrid::plan("gamma", SimdLevel::Fallback).is_none());
}
