//! Benchmarks that replay loaded scenes on the GPU hybrid renderer.

use vstd::prelude::*;

use crate::registry::{
    Backend, BenchmarkInfo, RunPlan, SceneRegistry, benchmark_infos_for_scenes, plan_for_scenes,
    spec_category_name, spec_first_match, spec_id,
};
use crate::simd::{SimdLevel, level_suffix, spec_level_suffix};

verus! {

/// The benchmark descriptors of this category: one per loaded scene.
pub fn list(scenes: &SceneRegistry) -> (v: Vec<BenchmarkInfo>)
    ensures
        v@.len() == scenes.names().len(),
        forall|i: int|
            0 <= i < v@.len() ==> (#[trigger] v@[i]).category@ == spec_category_name(
                Backend::SceneHybrid,
            ) && v@[i].name@ == scenes.names()[i] && v@[i].id@ == spec_id(
                spec_category_name(Backend::SceneHybrid),
                scenes.names()[i],
            ),
{
    benchmark_infos_for_scenes("scene_hybrid", scenes)
}

/// Plan one run of a loaded scene on the GPU hybrid renderer under the
/// given instruction-set tier (used by its CPU-side stages). Nothing
/// exactly when the name is unregistered.
pub fn plan(scenes: &SceneRegistry, name: &str, level: SimdLevel) -> (r: Option<RunPlan>)
    ensures
        r is Some <==> scenes.contains_name(name@),
        r matches Some(p) ==> spec_first_match(scenes.names(), name@) matches Some(i) && p.id@
            == spec_id(spec_category_name(Backend::SceneHybrid), name@) && p.category@
            == spec_category_name(Backend::SceneHybrid) && p.name@ == name@ && p.simd_variant@
            == spec_level_suffix(level) && p.width == scenes.items_seq()[i].width && p.height
            == scenes.items_seq()[i].height,
{
    plan_for_scenes(Backend::SceneHybrid, scenes, name, level_suffix(level))
}

} // verus!
