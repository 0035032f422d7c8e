//! Benchmarks that run programmatic scenes on the CPU rasterizer.

use vstd::prelude::*;

use crate::registry::{
    Backend, BenchmarkInfo, RunPlan, benchmark_infos_for_vello, plan_for_vello,
    spec_category_name, spec_first_match, spec_id,
};
use crate::simd::{SimdLevel, level_suffix, spec_level_suffix};
use crate::vello_scenes::{spec_scene_height, spec_scene_names, spec_scene_registered,
    spec_scene_width};

verus! {

/// The benchmark descriptors of this category: one per programmatic
/// scene.
pub fn list() -> (v: Vec<BenchmarkInfo>)
    ensures
        v@.len() == spec_scene_names().len(),
        forall|i: int|
            0 <= i < v@.len() ==> (#[trigger] v@[i]).category@ == spec_category_name(
                Backend::VelloCpu,
            ) && v@[i].name@ == spec_scene_names()[i] && v@[i].id@ == spec_id(
                spec_category_name(Backend::VelloCpu),
                spec_scene_names()[i],
            ),
{
    benchmark_infos_for_vello("vello_cpu")
}

/// Plan one run of a programmatic scene on the CPU rasterizer under the
/// given instruction-set tier. Nothing exactly when the name is not in
/// the scene table.
pub fn plan(name: &str, level: SimdLevel) -> (r: Option<RunPlan>)
    ensures
        r is Some <==> spec_scene_registered(name@),
        r matches Some(p) ==> spec_first_match(spec_scene_names(), name@) matches Some(i) && p.id@
            == spec_id(spec_category_name(Backend::VelloCpu), name@) && p.category@
            == spec_category_name(Backend::VelloCpu) && p.name@ == name@ && p.simd_variant@
            == spec_level_suffix(level) && p.width == spec_scene_width(i) && p.height
            == spec_scene_height(i),
{
    plan_for_vello(Backend::VelloCpu, name, level_suffix(level))
}

} // verus!
