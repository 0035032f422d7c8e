//! Benchmarks that replay loaded scenes on the reference CPU rasterizer.

use vstd::prelude::*;

use crate::registry::{
    Backend, BenchmarkInfo, RunPlan, SceneRegistry, benchmark_infos_for_scenes, plan_for_scenes,
    spec_category_name, spec_first_match, spec_id,
};

verus! {

/// The benchmark descriptors of this category: one per loaded scene.
pub fn list(scenes: &SceneRegistry) -> (v: Vec<BenchmarkInfo>)
    ensures
        v@.len() == scenes.names().len(),
        forall|i: int|
            0 <= i < v@.len() ==> (#[trigger] v@[i]).category@ == spec_category_name(
                Backend::SceneSkia,
            ) && v@[i].name@ == scenes.names()[i] && v@[i].id@ == spec_id(
                spec_category_name(Backend::SceneSkia),
                scenes.names()[i],
            ),
{
    benchmark_infos_for_scenes("scene_skia", scenes)
}

/// Plan one run of a loaded scene on the reference rasterizer, which does
/// not select an instruction-set tier: the variant always reports "n/a".
/// Nothing exactly when the name is unregistered.
pub fn plan(scenes: &SceneRegistry, name: &str) -> (r: Option<RunPlan>)
    ensures
        r is Some <==> scenes.contains_name(name@),
        r matches Some(p) ==> spec_first_match(scenes.names(), name@) matches Some(i) && p.id@
            == spec_id(spec_category_name(Backend::SceneSkia), name@) && p.category@
            == spec_category_name(Backend::SceneSkia) && p.name@ == name@ && p.simd_variant@
            == "n/a"@ && p.width == scenes.items_seq()[i].width && p.height
            == scenes.items_seq()[i].height,
{
    plan_for_scenes(Backend::SceneSkia, scenes, name, "n/a")
}

} // verus!
