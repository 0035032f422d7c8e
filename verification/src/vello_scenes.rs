//! The table of programmatic scenes.
//!
//! Each entry names one drawing program and fixes its render dimensions.
//! The table is fixed at build time; dispatch by name is a linear lookup
//! with a deterministic "unknown name" failure. The drawing programs
//! themselves run in the adapter layer against a concrete renderer; two of
//! them, the filled-rectangle grid and the path-and-image mix, have their
//! integer geometry and color assignment specified in
//! [`crate::filled_rects`].

use vstd::prelude::*;

use crate::registry::{lemma_first_match_found, lemma_first_match_none, spec_first_match};

verus! {

/// Metadata of one programmatic scene: its unique name and its render
/// dimensions.
#[derive(Clone, Copy, Debug)]
pub struct VelloSceneInfo {
    /// The scene's unique name.
    pub name: &'static str,
    /// Render width in pixels.
    pub width: u16,
    /// Render height in pixels.
    pub height: u16,
}

/// The names of the programmatic scenes, in table order.
pub open spec fn spec_scene_names() -> Seq<Seq<char>> {
    seq![
        "filled_rects"@,
        "tiled_flowers_100"@,
        "tiled_flowers_300"@,
        "tiled_flowers_1000"@,
        "tiled_flowers_10000"@,
        "overlapping_images_100"@,
        "overlapping_images_1000"@,
        "overlapping_images_10000"@,
        "clipped_image_cards_100"@,
        "clipped_image_cards_1000"@,
        "clipped_image_cards_10000"@,
        "large_overlapping_images_100"@,
        "large_overlapping_images_1000"@,
        "large_overlapping_images_10000"@,
        "rotated_images_100"@,
        "rotated_images_1000"@,
        "rotated_images_10000"@,
        "image_cards_with_borders_100"@,
        "image_cards_with_borders_1000"@,
        "image_cards_with_borders_10000"@,
        "mixed_image_and_vector_100"@,
        "mixed_image_and_vector_1000"@,
        "mixed_image_and_vector_10000"@,
        "paths_and_images_100"@,
    ]
}

/// The render width of the scene at table position `i`: the vector-only
/// grid renders at 1024 wide, every image scene at 1920.
pub open spec fn spec_scene_width(i: int) -> u16 {
    if i == 0 {
        1024u16
    } else {
        1920u16
    }
}

/// The render height of the scene at table position `i`.
pub open spec fn spec_scene_height(i: int) -> u16 {
    if i == 0 {
        768u16
    } else {
        1080u16
    }
}

/// Metadata for all registered programmatic scenes, in table order.
pub fn get_vello_scenes() -> (v: Vec<VelloSceneInfo>)
    ensures
        v@.len() == spec_scene_names().len(),
        forall|i: int|
            0 <= i < v@.len() ==> (#[trigger] v@[i]).name@ == spec_scene_names()[i] && v@[i].width
                == spec_scene_width(i) && v@[i].height == spec_scene_height(i),
{
    let mut v: Vec<VelloSceneInfo> = Vec::new();
    v.push(VelloSceneInfo { name: "filled_rects", width: 1024, height: 768 });
    v.push(VelloSceneInfo { name: "tiled_flowers_100", width: 1920, height: 1080 });
    v.push(VelloSceneInfo { name: "tiled_flowers_300", width: 1920, height: 1080 });
    v.push(VelloSceneInfo { name: "tiled_flowers_1000", width: 1920, height: 1080 });
    v.push(VelloSceneInfo { name: "tiled_flowers_10000", width: 1920, height: 1080 });
    v.push(VelloSceneInfo { name: "overlapping_images_100", width: 1920, height: 1080 });
    v.push(VelloSceneInfo { name: "overlapping_images_1000", width: 1920, height: 1080 });
    v.push(VelloSceneInfo { name: "overlapping_images_10000", width: 1920, height: 1080 });
    v.push(VelloSceneInfo { name: "clipped_image_cards_100", width: 1920, height: 1080 });
    v.push(VelloSceneInfo { name: "clipped_image_cards_1000", width: 1920, height: 1080 });
    v.push(VelloSceneInfo { name: "clipped_image_cards_10000", width: 1920, height: 1080 });
    v.push(VelloSceneInfo { name: "large_overlapping_images_100", width: 1920, height: 1080 });
    v.push(VelloSceneInfo { name: "large_overlapping_images_1000", width: 1920, height: 1080 });
    v.push(VelloSceneInfo { name: "large_overlapping_images_10000", width: 1920, height: 1080 });
    v.push(VelloSceneInfo { name: "rotated_images_100", width: 1920, height: 1080 });
    v.push(VelloSceneInfo { name: "rotated_images_1000", width: 1920, height: 1080 });
    v.push(VelloSceneInfo { name: "rotated_images_10000", width: 1920, height: 1080 });
    v.push(VelloSceneInfo { name: "image_cards_with_borders_100", width: 1920, height: 1080 });
    v.push(VelloSceneInfo { name: "image_cards_with_borders_1000", width: 1920, height: 1080 });
    v.push(VelloSceneInfo { name: "image_cards_with_borders_10000", width: 1920, height: 1080 });
    v.push(VelloSceneInfo { name: "mixed_image_and_vector_100", width: 1920, height: 1080 });
    v.push(VelloSceneInfo { name: "mixed_image_and_vector_1000", width: 1920, height: 1080 });
    v.push(VelloSceneInfo { name: "mixed_image_and_vector_10000", width: 1920, height: 1080 });
    v.push(VelloSceneInfo { name: "paths_and_images_100", width: 1920, height: 1080 });
    v
}

/// Whether a programmatic scene is registered under `name`.
pub open spec fn spec_scene_registered(name: Seq<char>) -> bool {
    exists|i: int| 0 <= i < spec_scene_names().len() && spec_scene_names()[i] == name
}

/// Look a programmatic scene up by name.
pub fn find_vello_scene(name: &str) -> (r: Option<VelloSceneInfo>)
    ensures
        r is Some <==> spec_scene_registered(name@),
        r matches Some(info) ==> spec_first_match(spec_scene_names(), name@) matches Some(i)
            && info.name@ == spec_scene_names()[i] && info.width == spec_scene_width(i)
            && info.height == spec_scene_height(i),
{
    let scenes = get_vello_scenes();
    let mut i: usize = 0;
    while i < scenes.len()
        invariant
            i <= scenes.len(),
            scenes@.len() == spec_scene_names().len(),
            forall|k: int|
                0 <= k < scenes@.len() ==> (#[trigger] scenes@[k]).name@ == spec_scene_names()[k]
                    && scenes@[k].width == spec_scene_width(k) && scenes@[k].height
                    == spec_scene_height(k),
            forall|j: int| 0 <= j < i ==> spec_scene_names()[j] != name@,
        decreases scenes.len() - i,
    {
        if crate::registry::str_eq(scenes[i].name, name) {
            proof {
                lemma_first_match_found(spec_scene_names(), name@, i as int);
            }
            return Some(scenes[i]);
        }
        i = i + 1;
    }
    proof {
        lemma_first_match_none(spec_scene_names(), name@);
    }
    None
}

/// No two programmatic scenes share a name: the table's keys are unique,
/// so a composite benchmark identifier over it names at most one scene
/// and lookup by name is unambiguous.
#[verifier::rlimit(100)]
pub proof fn lemma_scene_names_unique(i: int, j: int)
    requires
        0 <= i < spec_scene_names().len(),
        0 <= j < spec_scene_names().len(),
        i != j,
    ensures
        spec_scene_names()[i] != spec_scene_names()[j],
{
    reveal_strlit("filled_rects");
    reveal_strlit("tiled_flowers_100");
    reveal_strlit("tiled_flowers_300");
    reveal_strlit("tiled_flowers_1000");
    reveal_strlit("tiled_flowers_10000");
    reveal_strlit("overlapping_images_100");
    reveal_strlit("overlapping_images_1000");
    reveal_strlit("overlapping_images_10000");
    reveal_strlit("clipped_image_cards_100");
    reveal_strlit("clipped_image_cards_1000");
    reveal_strlit("clipped_image_cards_10000");
    reveal_strlit("large_overlapping_images_100");
    reveal_strlit("large_overlapping_images_1000");
    reveal_strlit("large_overlapping_images_10000");
    reveal_strlit("rotated_images_100");
    reveal_strlit("rotated_images_1000");
    reveal_strlit("rotated_images_10000");
    reveal_strlit("image_cards_with_borders_100");
    reveal_strlit("image_cards_with_borders_1000");
    reveal_strlit("image_cards_with_borders_10000");
    reveal_strlit("mixed_image_and_vector_100");
    reveal_strlit("mixed_image_and_vector_1000");
    reveal_strlit("mixed_image_and_vector_10000");
    reveal_strlit("paths_and_images_100");
    assert("filled_rects"@.len() == 12);
    assert("tiled_flowers_100"@.len() == 17);
    assert("tiled_flowers_300"@.len() == 17);
    assert("tiled_flowers_1000"@.len() == 18);
    assert("tiled_flowers_10000"@.len() == 19);
    assert("overlapping_images_100"@.len() == 22);
    assert("overlapping_images_1000"@.len() == 23);
    assert("overlapping_images_10000"@.len() == 24);
    assert("clipped_image_cards_100"@.len() == 23);
    assert("clipped_image_cards_1000"@.len() == 24);
    assert("clipped_image_cards_10000"@.len() == 25);
    assert("large_overlapping_images_100"@.len() == 28);
    assert("large_overlapping_images_1000"@.len() == 29);
    assert("large_overlapping_images_10000"@.len() == 30);
    assert("rotated_images_100"@.len() == 18);
    assert("rotated_images_1000"@.len() == 19);
    assert("rotated_images_10000"@.len() == 20);
    assert("image_cards_with_borders_100"@.len() == 28);
    assert("image_cards_with_borders_1000"@.len() == 29);
    assert("image_cards_with_borders_10000"@.len() == 30);
    assert("mixed_image_and_vector_100"@.len() == 26);
    assert("mixed_image_and_vector_1000"@.len() == 27);
    assert("mixed_image_and_vector_10000"@.len() == 28);
    assert("paths_and_images_100"@.len() == 20);
    // Names of equal length are told apart by one character.
    assert("tiled_flowers_100"@[14] != "tiled_flowers_300"@[14]);
    assert("tiled_flowers_1000"@[0] != "rotated_images_100"@[0]);
    assert("tiled_flowers_10000"@[0] != "rotated_images_1000"@[0]);
    assert("rotated_images_10000"@[0] != "paths_and_images_100"@[0]);
    assert("overlapping_images_1000"@[0] != "clipped_image_cards_100"@[0]);
    assert("overlapping_images_10000"@[0] != "clipped_image_cards_1000"@[0]);
    assert("large_overlapping_images_100"@[0] != "image_cards_with_borders_100"@[0]);
    assert("large_overlapping_images_100"@[0] != "mixed_image_and_vector_10000"@[0]);
    assert("image_cards_with_borders_100"@[0] != "mixed_image_and_vector_10000"@[0]);
    assert("large_overlapping_images_1000"@[0] != "image_cards_with_borders_1000"@[0]);
    assert("large_overlapping_images_10000"@[0] != "image_cards_with_borders_10000"@[0]);
}

} // verus!
