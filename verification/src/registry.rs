//! The scene registry and benchmark identity.
//!
//! A [`SceneRegistry`] holds the descriptors of the replayable scenes that
//! were loaded at startup: a unique name plus render dimensions for each.
//! The scene graphs themselves live with the adapter layer that loaded
//! them; the registry is the name-indexed catalog the benchmark and
//! screenshot entry points dispatch on. Lookup is by first match, and
//! `add` rejects duplicate names, so the catalog's names stay unique.

use vstd::prelude::*;
use vstd::string::{StrSliceExecFns, StringExecFns};

verus! {

/// Relies on `str`'s `PartialEq`: two string slices are equal exactly when
/// their character sequences are.
#[verifier::external_body]
pub(crate) fn str_eq(a: &str, b: &str) -> (r: bool)
    ensures
        r == (a@ == b@),
{
    a == b
}

/// The index of the first occurrence of `name` in `names`, if any.
pub open spec fn spec_first_match(names: Seq<Seq<char>>, name: Seq<char>) -> Option<int>
    decreases names.len(),
{
    if names.len() == 0 {
        None
    } else if names[0] == name {
        Some(0int)
    } else {
        match spec_first_match(names.drop_first(), name) {
            Some(i) => Some(i + 1),
            None => None,
        }
    }
}

/// If `name` sits at index `i` and nowhere earlier, it is the first match.
pub proof fn lemma_first_match_found(names: Seq<Seq<char>>, name: Seq<char>, i: int)
    requires
        0 <= i < names.len(),
        names[i] == name,
        forall|j: int| 0 <= j < i ==> names[j] != name,
    ensures
        spec_first_match(names, name) == Some(i),
    decreases i,
{
    if i == 0 {
    } else {
        assert(names[0] != name);
        lemma_first_match_found(names.drop_first(), name, i - 1);
    }
}

/// If `name` occurs nowhere in `names`, there is no first match.
pub proof fn lemma_first_match_none(names: Seq<Seq<char>>, name: Seq<char>)
    requires
        forall|j: int| 0 <= j < names.len() ==> names[j] != name,
    ensures
        spec_first_match(names, name) is None,
    decreases names.len(),
{
    if names.len() > 0 {
        lemma_first_match_none(names.drop_first(), name);
    }
}

/// The file-name suffix that marks a scene archive.
pub open spec fn spec_archive_suffix() -> Seq<char> {
    ".anyrender.zip"@
}

/// The scene name a scene-archive file name carries: the file name with
/// the archive suffix stripped. Nothing exactly when the file name does
/// not end in the suffix.
pub fn scene_name_from_file(file: &str) -> (r: Option<String>)
    ensures
        r is Some <==> file@.len() >= spec_archive_suffix().len() && file@.subrange(
            file@.len() - spec_archive_suffix().len(),
            file@.len() as int,
        ) == spec_archive_suffix(),
        r matches Some(name) ==> name@ == file@.subrange(
            0,
            file@.len() - spec_archive_suffix().len(),
        ),
{
    let suffix = ".anyrender.zip";
    let n = file.unicode_len();
    let k = suffix.unicode_len();
    if n < k {
        return None;
    }
    let tail = file.substring_char(n - k, n);
    if str_eq(tail, suffix) {
        let name = file.substring_char(0, n - k);
        Some(name.to_owned())
    } else {
        None
    }
}

/// A loaded scene ready for benchmarking: its unique name and its render
/// dimensions.
#[derive(Debug)]
pub struct SceneItem {
    /// Human-readable name, the registry key.
    pub name: String,
    /// Render width in pixels.
    pub width: u16,
    /// Render height in pixels.
    pub height: u16,
}

/// The catalog of loaded scenes, fixed once loading completes.
#[derive(Debug)]
pub struct SceneRegistry {
    items: Vec<SceneItem>,
}

impl SceneRegistry {
    /// The scene descriptors, in registration order.
    pub closed spec fn items_seq(&self) -> Seq<SceneItem> {
        self.items@
    }

    /// The scene names, in registration order.
    pub open spec fn names(&self) -> Seq<Seq<char>> {
        self.items_seq().map_values(|it: SceneItem| it.name@)
    }

    /// Whether some scene is registered under `name`.
    pub open spec fn contains_name(&self, name: Seq<char>) -> bool {
        exists|i: int| 0 <= i < self.names().len() && self.names()[i] == name
    }

    /// An empty registry.
    pub fn new() -> (r: SceneRegistry)
        ensures
            r.items_seq() == Seq::<SceneItem>::empty(),
    {
        SceneRegistry { items: Vec::new() }
    }

    /// How many scenes are registered.
    pub fn len(&self) -> (n: usize)
        ensures
            n == self.items_seq().len(),
    {
        self.items.len()
    }

    /// The scene descriptor at position `i`.
    pub fn get(&self, i: usize) -> (item: &SceneItem)
        requires
            i < self.items_seq().len(),
        ensures
            *item == self.items_seq()[i as int],
    {
        &self.items[i]
    }

    /// Register one scene. Rejects a name that is already taken, keeping
    /// names unique; returns whether the scene was added.
    pub fn add(&mut self, name: String, width: u16, height: u16) -> (added: bool)
        ensures
            added == !old(self).contains_name(name@),
            added ==> final(self).items_seq() == old(self).items_seq().push(
                (SceneItem { name, width, height }),
            ),
            !added ==> final(self).items_seq() == old(self).items_seq(),
    {
        let mut i: usize = 0;
        while i < self.items.len()
            invariant
                i <= self.items.len(),
                forall|j: int| 0 <= j < i ==> self.names()[j] != name@,
            decreases self.items.len() - i,
        {
            if str_eq(self.items[i].name.as_str(), name.as_str()) {
                assert(self.names()[i as int] == name@);
                return false;
            }
            i = i + 1;
        }
        self.items.push(SceneItem { name, width, height });
        true
    }

    /// Look a scene up by name: the first (and, names being unique, only)
    /// descriptor registered under it.
    pub fn find<'a>(&'a self, name: &str) -> (r: Option<&'a SceneItem>)
        ensures
            r is Some <==> self.contains_name(name@),
            r matches Some(item) ==> spec_first_match(self.names(), name@) matches Some(i) && *item
                == self.items_seq()[i] && item.name@ == name@,
    {
        let mut i: usize = 0;
        while i < self.items.len()
            invariant
                i <= self.items.len(),
                forall|j: int| 0 <= j < i ==> self.names()[j] != name@,
            decreases self.items.len() - i,
        {
            if str_eq(self.items[i].name.as_str(), name) {
                proof {
                    assert(self.names()[i as int] == name@);
                    lemma_first_match_found(self.names(), name@, i as int);
                }
                return Some(&self.items[i]);
            }
            i = i + 1;
        }
        proof {
            lemma_first_match_none(self.names(), name@);
        }
        None
    }
}

/// A benchmarkable unit: its composite `category/name` identifier, the
/// category it belongs to, and its name within the category.
#[derive(Debug)]
pub struct BenchmarkInfo {
    /// The composite `category/name` identifier, unique across the full
    /// registry.
    pub id: String,
    /// The benchmark category.
    pub category: String,
    /// The benchmark name within its category.
    pub name: String,
}

/// The composite identifier of a benchmark: `category`, a slash, `name`.
pub open spec fn spec_id(category: Seq<char>, name: Seq<char>) -> Seq<char> {
    category + "/"@ + name
}

/// Build the composite `category/name` identifier.
pub fn compose_id(category: &str, name: &str) -> (s: String)
    ensures
        s@ == spec_id(category@, name@),
{
    let mut s = category.to_owned();
    s.append("/");
    s.append(name);
    s
}

/// The benchmark descriptors of one category over the scene registry: one
/// per registered scene, in registration order.
pub fn benchmark_infos_for_scenes(category: &str, scenes: &SceneRegistry) -> (v: Vec<
    BenchmarkInfo,
>)
    ensures
        v@.len() == scenes.names().len(),
        forall|i: int|
            0 <= i < v@.len() ==> (#[trigger] v@[i]).category@ == category@ && v@[i].name@
                == scenes.names()[i] && v@[i].id@ == spec_id(category@, scenes.names()[i]),
{
    let mut v: Vec<BenchmarkInfo> = Vec::new();
    let mut i: usize = 0;
    while i < scenes.len()
        invariant
            i <= scenes.names().len(),
            v@.len() == i,
            forall|k: int|
                0 <= k < i ==> (#[trigger] v@[k]).category@ == category@ && v@[k].name@
                    == scenes.names()[k] && v@[k].id@ == spec_id(category@, scenes.names()[k]),
        decreases scenes.names().len() - i,
    {
        let item = scenes.get(i);
        let id = compose_id(category, item.name.as_str());
        v.push(BenchmarkInfo { id, category: category.to_owned(), name: item.name.clone() });
        i = i + 1;
    }
    v
}

/// The benchmark descriptors of one category over the programmatic scene
/// table: one per scene, in table order.
pub fn benchmark_infos_for_vello(category: &str) -> (v: Vec<BenchmarkInfo>)
    ensures
        v@.len() == crate::vello_scenes::spec_scene_names().len(),
        forall|i: int|
            0 <= i < v@.len() ==> (#[trigger] v@[i]).category@ == category@ && v@[i].name@
                == crate::vello_scenes::spec_scene_names()[i] && v@[i].id@ == spec_id(
                category@,
                crate::vello_scenes::spec_scene_names()[i],
            ),
{
    let scenes = crate::vello_scenes::get_vello_scenes();
    let mut v: Vec<BenchmarkInfo> = Vec::new();
    let mut i: usize = 0;
    while i < scenes.len()
        invariant
            i <= scenes@.len(),
            scenes@.len() == crate::vello_scenes::spec_scene_names().len(),
            forall|k: int|
                0 <= k < scenes@.len() ==> (#[trigger] scenes@[k]).name@
                    == crate::vello_scenes::spec_scene_names()[k],
            v@.len() == i,
            forall|k: int|
                0 <= k < i ==> (#[trigger] v@[k]).category@ == category@ && v@[k].name@
                    == crate::vello_scenes::spec_scene_names()[k] && v@[k].id@ == spec_id(
                    category@,
                    crate::vello_scenes::spec_scene_names()[k],
                ),
        decreases scenes@.len() - i,
    {
        let name = scenes[i].name;
        let id = compose_id(category, name);
        v.push(BenchmarkInfo { id, category: category.to_owned(), name: name.to_owned() });
        i = i + 1;
    }
    v
}

/// The rendering backend a benchmark category targets.
#[derive(Clone, Copy, Debug, PartialEq, Eq, Structural)]
pub enum Backend {
    /// Scene replay on the CPU rasterizer.
    SceneCpu,
    /// Scene replay on the GPU hybrid renderer.
    SceneHybrid,
    /// Scene replay on the reference CPU rasterizer.
    SceneSkia,
    /// Programmatic scenes on the CPU rasterizer.
    VelloCpu,
    /// Programmatic scenes on the GPU hybrid renderer.
    VelloHybrid,
}

/// The category name of a backend.
pub open spec fn spec_category_name(b: Backend) -> Seq<char> {
    match b {
        Backend::SceneCpu => "scene_cpu"@,
        Backend::SceneHybrid => "scene_hybrid"@,
        Backend::SceneSkia => "scene_skia"@,
        Backend::VelloCpu => "vello_cpu"@,
        Backend::VelloHybrid => "vello_hybrid"@,
    }
}

/// The category name of a backend.
pub fn category_str(b: Backend) -> (s: &'static str)
    ensures
        s@ == spec_category_name(b),
{
    match b {
        Backend::SceneCpu => "scene_cpu",
        Backend::SceneHybrid => "scene_hybrid",
        Backend::SceneSkia => "scene_skia",
        Backend::VelloCpu => "vello_cpu",
        Backend::VelloHybrid => "vello_hybrid",
    }
}

/// Whether a backend's benchmarks draw from the scene registry (the other
/// backends draw from the programmatic scene table).
pub open spec fn spec_uses_scene_registry(b: Backend) -> bool {
    match b {
        Backend::SceneCpu => true,
        Backend::SceneHybrid => true,
        Backend::SceneSkia => true,
        Backend::VelloCpu => false,
        Backend::VelloHybrid => false,
    }
}

/// The pool of scene names a backend's benchmarks draw from.
pub open spec fn spec_pool(b: Backend, scene_names: Seq<Seq<char>>) -> Seq<Seq<char>> {
    if spec_uses_scene_registry(b) {
        scene_names
    } else {
        crate::vello_scenes::spec_scene_names()
    }
}

/// Whether `id` is the identifier of some benchmark of backend `b`.
pub open spec fn spec_listed_in(b: Backend, scene_names: Seq<Seq<char>>, id: Seq<char>) -> bool {
    exists|i: int|
        0 <= i < spec_pool(b, scene_names).len() && id == spec_id(
            spec_category_name(b),
            #[trigger] spec_pool(b, scene_names)[i],
        )
}

/// Whether `id` is the identifier of some benchmark of the full registry.
pub open spec fn spec_is_listed(scene_names: Seq<Seq<char>>, id: Seq<char>) -> bool {
    ||| spec_listed_in(Backend::SceneCpu, scene_names, id)
    ||| spec_listed_in(Backend::SceneHybrid, scene_names, id)
    ||| spec_listed_in(Backend::SceneSkia, scene_names, id)
    ||| spec_listed_in(Backend::VelloCpu, scene_names, id)
    ||| spec_listed_in(Backend::VelloHybrid, scene_names, id)
}

/// The backend whose benchmarks occupy position `k` of the full list over
/// a registry of `n` scenes: the three replay categories first, then the
/// two programmatic ones.
pub open spec fn spec_listed_backend(n: int, k: int) -> Backend {
    let vn = crate::vello_scenes::spec_scene_names().len() as int;
    if k < n {
        Backend::SceneCpu
    } else if k < 2 * n {
        Backend::SceneHybrid
    } else if k < 3 * n {
        Backend::SceneSkia
    } else if k < 3 * n + vn {
        Backend::VelloCpu
    } else {
        Backend::VelloHybrid
    }
}

/// The scene name of position `k` of the full list: its index within its
/// backend's pool, read from that pool.
pub open spec fn spec_listed_name(scene_names: Seq<Seq<char>>, k: int) -> Seq<char> {
    let n = scene_names.len() as int;
    let vn = crate::vello_scenes::spec_scene_names().len() as int;
    if k < n {
        scene_names[k]
    } else if k < 2 * n {
        scene_names[k - n]
    } else if k < 3 * n {
        scene_names[k - 2 * n]
    } else if k < 3 * n + vn {
        crate::vello_scenes::spec_scene_names()[k - 3 * n]
    } else {
        crate::vello_scenes::spec_scene_names()[k - 3 * n - vn]
    }
}

/// All benchmark descriptors of the full registry, category by category:
/// scene replay per backend over the registry, then the programmatic
/// scenes per backend over the table. Position `k` describes the scene
/// [`spec_listed_name`] of backend [`spec_listed_backend`], and every
/// produced identifier is listed, in the sense of [`spec_is_listed`].
pub fn get_benchmark_list(scenes: &SceneRegistry) -> (v: Vec<BenchmarkInfo>)
    ensures
        v@.len() == 3 * scenes.names().len() + 2 * crate::vello_scenes::spec_scene_names().len(),
        forall|k: int|
            0 <= k < v@.len() ==> {
                let b = spec_listed_backend(scenes.names().len() as int, k);
                let name = spec_listed_name(scenes.names(), k);
                (#[trigger] v@[k]).category@ == spec_category_name(b) && v@[k].name@ == name
                    && v@[k].id@ == spec_id(spec_category_name(b), name)
            },
        forall|k: int|
            0 <= k < v@.len() ==> spec_is_listed(scenes.names(), (#[trigger] v@[k]).id@),
{
    let mut v = benchmark_infos_for_scenes("scene_cpu", scenes);
    let mut p2 = benchmark_infos_for_scenes("scene_hybrid", scenes);
    let mut p3 = benchmark_infos_for_scenes("scene_skia", scenes);
    let mut p4 = benchmark_infos_for_vello("vello_cpu");
    let mut p5 = benchmark_infos_for_vello("vello_hybrid");
    proof {
        assert forall|k: int| 0 <= k < v@.len() implies spec_is_listed(
            scenes.names(),
            (#[trigger] v@[k]).id@,
        ) by {
            assert(v@[k].id@ == spec_id(
                spec_category_name(Backend::SceneCpu),
                spec_pool(Backend::SceneCpu, scenes.names())[k],
            ));
        }
        assert forall|k: int| 0 <= k < p2@.len() implies spec_is_listed(
            scenes.names(),
            (#[trigger] p2@[k]).id@,
        ) by {
            assert(p2@[k].id@ == spec_id(
                spec_category_name(Backend::SceneHybrid),
                spec_pool(Backend::SceneHybrid, scenes.names())[k],
            ));
        }
        assert forall|k: int| 0 <= k < p3@.len() implies spec_is_listed(
            scenes.names(),
            (#[trigger] p3@[k]).id@,
        ) by {
            assert(p3@[k].id@ == spec_id(
                spec_category_name(Backend::SceneSkia),
                spec_pool(Backend::SceneSkia, scenes.names())[k],
            ));
        }
        assert forall|k: int| 0 <= k < p4@.len() implies spec_is_listed(
            scenes.names(),
            (#[trigger] p4@[k]).id@,
        ) by {
            assert(p4@[k].id@ == spec_id(
                spec_category_name(Backend::VelloCpu),
                spec_pool(Backend::VelloCpu, scenes.names())[k],
            ));
        }
        assert forall|k: int| 0 <= k < p5@.len() implies spec_is_listed(
            scenes.names(),
            (#[trigger] p5@[k]).id@,
        ) by {
            assert(p5@[k].id@ == spec_id(
                spec_category_name(Backend::VelloHybrid),
                spec_pool(Backend::VelloHybrid, scenes.names())[k],
            ));
        }
    }
    v.append(&mut p2);
    v.append(&mut p3);
    v.append(&mut p4);
    v.append(&mut p5);
    v
}

/// A benchmark identifier resolved to what it names: the backend, the
/// scene name within the backend's pool, and the scene's render
/// dimensions.
#[derive(Debug)]
pub struct ResolvedBenchmark {
    /// The backend the benchmark targets.
    pub backend: Backend,
    /// The scene name within that backend's pool.
    pub name: String,
    /// Render width in pixels.
    pub width: u16,
    /// Render height in pixels.
    pub height: u16,
}

/// Look for `id` among the benchmarks of one scene-registry backend.
fn resolve_in_scenes(b: Backend, scenes: &SceneRegistry, id: &str) -> (r: Option<
    ResolvedBenchmark,
>)
    requires
        spec_uses_scene_registry(b),
    ensures
        r is Some <==> spec_listed_in(b, scenes.names(), id@),
        r matches Some(rb) ==> rb.backend == b && exists|i: int|
            0 <= i < scenes.names().len() && id@ == spec_id(
                spec_category_name(b),
                #[trigger] scenes.names()[i],
            ) && rb.name@ == scenes.names()[i] && rb.width == scenes.items_seq()[i].width
                && rb.height == scenes.items_seq()[i].height,
{
    let category = category_str(b);
    let mut i: usize = 0;
    while i < scenes.len()
        invariant
            spec_uses_scene_registry(b),
            i <= scenes.names().len(),
            category@ == spec_category_name(b),
            forall|j: int|
                0 <= j < i ==> id@ != spec_id(spec_category_name(b), #[trigger] scenes.names()[j]),
        decreases scenes.names().len() - i,
    {
        let item = scenes.get(i);
        let candidate = compose_id(category, item.name.as_str());
        if str_eq(candidate.as_str(), id) {
            proof {
                assert(scenes.names()[i as int] == item.name@);
                assert(id@ == spec_id(spec_category_name(b), scenes.names()[i as int]));
                assert(spec_pool(b, scenes.names())[i as int] == scenes.names()[i as int]);
                assert(spec_listed_in(b, scenes.names(), id@));
            }
            return Some(
                ResolvedBenchmark {
                    backend: b,
                    name: item.name.clone(),
                    width: item.width,
                    height: item.height,
                },
            );
        }
        i = i + 1;
    }
    None
}

/// Look for `id` among the benchmarks of one programmatic-scene backend.
fn resolve_in_vello(b: Backend, id: &str) -> (r: Option<ResolvedBenchmark>)
    requires
        !spec_uses_scene_registry(b),
    ensures
        r is Some <==> spec_listed_in(b, Seq::<Seq<char>>::empty(), id@),
        r matches Some(rb) ==> rb.backend == b && exists|i: int|
            0 <= i < crate::vello_scenes::spec_scene_names().len() && id@ == spec_id(
                spec_category_name(b),
                #[trigger] crate::vello_scenes::spec_scene_names()[i],
            ) && rb.name@ == crate::vello_scenes::spec_scene_names()[i] && rb.width
                == crate::vello_scenes::spec_scene_width(i) && rb.height
                == crate::vello_scenes::spec_scene_height(i),
{
    let category = category_str(b);
    let scenes = crate::vello_scenes::get_vello_scenes();
    let mut i: usize = 0;
    while i < scenes.len()
        invariant
            !spec_uses_scene_registry(b),
            i <= scenes@.len(),
            scenes@.len() == crate::vello_scenes::spec_scene_names().len(),
            category@ == spec_category_name(b),
            forall|k: int|
                0 <= k < scenes@.len() ==> (#[trigger] scenes@[k]).name@
                    == crate::vello_scenes::spec_scene_names()[k] && scenes@[k].width
                    == crate::vello_scenes::spec_scene_width(k) && scenes@[k].height
                    == crate::vello_scenes::spec_scene_height(k),
            forall|j: int|
                0 <= j < i ==> id@ != spec_id(
                    spec_category_name(b),
                    #[trigger] crate::vello_scenes::spec_scene_names()[j],
                ),
        decreases scenes@.len() - i,
    {
        let candidate = compose_id(category, scenes[i].name);
        if str_eq(candidate.as_str(), id) {
            proof {
                assert(id@ == spec_id(
                    spec_category_name(b),
                    crate::vello_scenes::spec_scene_names()[i as int],
                ));
                assert(spec_pool(b, Seq::<Seq<char>>::empty())
                    == crate::vello_scenes::spec_scene_names());
                assert(spec_pool(b, Seq::<Seq<char>>::empty())[i as int]
                    == crate::vello_scenes::spec_scene_names()[i as int]);
                assert(spec_listed_in(b, Seq::<Seq<char>>::empty(), id@));
            }
            return Some(
                ResolvedBenchmark {
                    backend: b,
                    name: scenes[i].name.to_owned(),
                    width: scenes[i].width,
                    height: scenes[i].height,
                },
            );
        }
        i = i + 1;
    }
    None
}

/// Whether a resolved record correctly describes what `id` names: its
/// backend's pool holds a scene whose composite identifier is `id`, and
/// the record carries that scene's name and dimensions.
pub open spec fn spec_resolution_ok(
    scenes: &SceneRegistry,
    id: Seq<char>,
    rb: ResolvedBenchmark,
) -> bool {
    if spec_uses_scene_registry(rb.backend) {
        exists|i: int|
            0 <= i < scenes.names().len() && id == spec_id(
                spec_category_name(rb.backend),
                #[trigger] scenes.names()[i],
            ) && rb.name@ == scenes.names()[i] && rb.width == scenes.items_seq()[i].width
                && rb.height == scenes.items_seq()[i].height
    } else {
        exists|i: int|
            0 <= i < crate::vello_scenes::spec_scene_names().len() && id == spec_id(
                spec_category_name(rb.backend),
                #[trigger] crate::vello_scenes::spec_scene_names()[i],
            ) && rb.name@ == crate::vello_scenes::spec_scene_names()[i] && rb.width
                == crate::vello_scenes::spec_scene_width(i) && rb.height
                == crate::vello_scenes::spec_scene_height(i)
    }
}

/// Resolve a benchmark identifier against the full registry. Returns what
/// the identifier names, or nothing exactly when no listed benchmark
/// carries it: an unknown identifier is a recoverable lookup failure, not
/// an error.
pub fn resolve_benchmark(scenes: &SceneRegistry, id: &str) -> (r: Option<ResolvedBenchmark>)
    ensures
        r is Some <==> spec_is_listed(scenes.names(), id@),
        r matches Some(rb) ==> spec_resolution_ok(scenes, id@, rb),
{
    proof {
        assert(spec_pool(Backend::VelloCpu, scenes.names()) == spec_pool(
            Backend::VelloCpu,
            Seq::<Seq<char>>::empty(),
        ));
        assert(spec_pool(Backend::VelloHybrid, scenes.names()) == spec_pool(
            Backend::VelloHybrid,
            Seq::<Seq<char>>::empty(),
        ));
    }
    let r = resolve_in_scenes(Backend::SceneCpu, scenes, id);
    if r.is_some() {
        return r;
    }
    let r = resolve_in_scenes(Backend::SceneHybrid, scenes, id);
    if r.is_some() {
        return r;
    }
    let r = resolve_in_scenes(Backend::SceneSkia, scenes, id);
    if r.is_some() {
        return r;
    }
    let r = resolve_in_vello(Backend::VelloCpu, id);
    if r.is_some() {
        return r;
    }
    resolve_in_vello(Backend::VelloHybrid, id)
}

/// Everything a backend adapter needs to execute one benchmark run: the
/// full identity under which the result reports, and the scene's render
/// dimensions for sizing the render target.
#[derive(Debug)]
pub struct RunPlan {
    /// The composite `category/name` identifier.
    pub id: String,
    /// The benchmark category.
    pub category: String,
    /// The scene name.
    pub name: String,
    /// The instruction-set variant tag to report.
    pub simd_variant: String,
    /// Render width in pixels.
    pub width: u16,
    /// Render height in pixels.
    pub height: u16,
}

/// Plan one benchmark run of a scene-registry backend: look the scene up
/// by name and assemble the reporting identity. Nothing exactly when the
/// name is unregistered.
pub fn plan_for_scenes(b: Backend, scenes: &SceneRegistry, name: &str, simd_variant: &str) -> (r:
    Option<RunPlan>)
    requires
        spec_uses_scene_registry(b),
    ensures
        r is Some <==> scenes.contains_name(name@),
        r matches Some(p) ==> spec_first_match(scenes.names(), name@) matches Some(i) && p.id@
            == spec_id(spec_category_name(b), name@) && p.category@ == spec_category_name(b)
            && p.name@ == name@ && p.simd_variant@ == simd_variant@ && p.width
            == scenes.items_seq()[i].width && p.height == scenes.items_seq()[i].height,
{
    let category = category_str(b);
    match scenes.find(name) {
        Some(item) => Some(
            RunPlan {
                id: compose_id(category, name),
                category: category.to_owned(),
                name: name.to_owned(),
                simd_variant: simd_variant.to_owned(),
                width: item.width,
                height: item.height,
            },
        ),
        None => None,
    }
}

/// Plan one benchmark run of a programmatic-scene backend: look the scene
/// up in the table and assemble the reporting identity. Nothing exactly
/// when the name is not in the table.
pub fn plan_for_vello(b: Backend, name: &str, simd_variant: &str) -> (r: Option<RunPlan>)
    requires
        !spec_uses_scene_registry(b),
    ensures
        r is Some <==> crate::vello_scenes::spec_scene_registered(name@),
        r matches Some(p) ==> spec_first_match(
            crate::vello_scenes::spec_scene_names(),
            name@,
        ) matches Some(i) && p.id@ == spec_id(spec_category_name(b), name@) && p.category@
            == spec_category_name(b) && p.name@ == name@ && p.simd_variant@ == simd_variant@
            && p.width == crate::vello_scenes::spec_scene_width(i) && p.height
            == crate::vello_scenes::spec_scene_height(i),
{
    let category = category_str(b);
    match crate::vello_scenes::find_vello_scene(name) {
        Some(info) => Some(
            RunPlan {
                id: compose_id(category, name),
                category: category.to_owned(),
                name: name.to_owned(),
                simd_variant: simd_variant.to_owned(),
                width: info.width,
                height: info.height,
            },
        ),
        None => None,
    }
}

/// No category name contains the identifier separator.
pub proof fn lemma_categories_have_no_slash(b: Backend, k: int)
    requires
        0 <= k < spec_category_name(b).len(),
    ensures
        spec_category_name(b)[k] != '/',
{
    reveal_strlit("scene_cpu");
    reveal_strlit("scene_hybrid");
    reveal_strlit("scene_skia");
    reveal_strlit("vello_cpu");
    reveal_strlit("vello_hybrid");
}

/// Composite identifiers are injective: two benchmarks with the same
/// identifier have the same category and the same name, so an identifier
/// names at most one benchmark of each pool. This rests on no category
/// containing a slash and no category being a prefix of another.
pub proof fn lemma_ids_injective(b1: Backend, n1: Seq<char>, b2: Backend, n2: Seq<char>)
    requires
        spec_id(spec_category_name(b1), n1) == spec_id(spec_category_name(b2), n2),
    ensures
        b1 == b2,
        n1 == n2,
{
    reveal_strlit("scene_cpu");
    reveal_strlit("scene_hybrid");
    reveal_strlit("scene_skia");
    reveal_strlit("vello_cpu");
    reveal_strlit("vello_hybrid");
    reveal_strlit("/");
    assert("/"@.len() == 1);
    let c1 = spec_category_name(b1);
    let c2 = spec_category_name(b2);
    let id = spec_id(c1, n1);
    assert(id.len() == c1.len() + 1 + n1.len());
    assert(id.len() == c2.len() + 1 + n2.len());
    assert(id[c1.len() as int] == '/');
    assert(id[c2.len() as int] == '/');
    if c1.len() < c2.len() {
        assert(id[c1.len() as int] == c2[c1.len() as int]);
        lemma_categories_have_no_slash(b2, c1.len() as int);
        assert(false);
    }
    if c2.len() < c1.len() {
        assert(id[c2.len() as int] == c1[c2.len() as int]);
        lemma_categories_have_no_slash(b1, c2.len() as int);
        assert(false);
    }
    assert(c1.len() == c2.len());
    assert forall|k: int| 0 <= k < c1.len() implies c1[k] == c2[k] by {
        assert(id[k] == c1[k]);
        assert(id[k] == c2[k]);
    }
    assert(c1 =~= c2);
    assert(b1 == b2) by {
        if b1 != b2 {
            lemma_category_names_distinct(b1, b2);
        }
    }
    assert forall|k: int| 0 <= k < n1.len() implies n1[k] == n2[k] by {
        assert(id[c1.len() + 1 + k] == n1[k]);
        assert(id[c2.len() + 1 + k] == n2[k]);
    }
    assert(n1 =~= n2);
}

/// Distinct backends have distinct category names.
proof fn lemma_category_names_distinct(b1: Backend, b2: Backend)
    requires
        b1 != b2,
    ensures
        spec_category_name(b1) != spec_category_name(b2),
{
    reveal_strlit("scene_cpu");
    reveal_strlit("scene_hybrid");
    reveal_strlit("scene_skia");
    reveal_strlit("vello_cpu");
    reveal_strlit("vello_hybrid");
    assert("scene_cpu"@.len() == 9);
    assert("scene_hybrid"@.len() == 12);
    assert("scene_skia"@.len() == 10);
    assert("vello_cpu"@.len() == 9);
    assert("vello_hybrid"@.len() == 12);
    assert("scene_cpu"@[0] != "vello_cpu"@[0]);
    assert("scene_hybrid"@[0] != "vello_hybrid"@[0]);
}

/// Benchmark identity is unique across the full registry: two listed
/// benchmarks that carry the same composite identifier are the same
/// benchmark — same backend and same position in its scene pool — as long
/// as the scene registry's names are unique, which registration enforces.
pub proof fn lemma_benchmark_identity_unique(
    scene_names: Seq<Seq<char>>,
    b1: Backend,
    i1: int,
    b2: Backend,
    i2: int,
)
    requires
        forall|i: int, j: int|
            0 <= i < scene_names.len() && 0 <= j < scene_names.len() && i != j
                ==> scene_names[i] != scene_names[j],
        0 <= i1 < spec_pool(b1, scene_names).len(),
        0 <= i2 < spec_pool(b2, scene_names).len(),
        spec_id(spec_category_name(b1), spec_pool(b1, scene_names)[i1]) == spec_id(
            spec_category_name(b2),
            spec_pool(b2, scene_names)[i2],
        ),
    ensures
        b1 == b2,
        i1 == i2,
{
    lemma_ids_injective(b1, spec_pool(b1, scene_names)[i1], b2, spec_pool(b2, scene_names)[i2]);
    if i1 != i2 {
        if spec_uses_scene_registry(b1) {
            assert(scene_names[i1] != scene_names[i2]);
        } else {
            crate::vello_scenes::lemma_scene_names_unique(i1, i2);
        }
        assert(false);
    }
}

/// Every identifier returned by the listing interface resolves: for any
/// descriptor the listing produced, resolving its exact identifier finds a
/// benchmark and never reports "not found".
pub proof fn lemma_listed_ids_resolve(
    scenes: &SceneRegistry,
    infos: Seq<BenchmarkInfo>,
    k: int,
    r: Option<ResolvedBenchmark>,
)
    requires
        0 <= k < infos.len(),
        forall|j: int|
            0 <= j < infos.len() ==> spec_is_listed(scenes.names(), (#[trigger] infos[j]).id@),
        r is Some <==> spec_is_listed(scenes.names(), infos[k].id@),
    ensures
        r is Some,
{
}

/// Looking a scene up twice returns identical descriptors: the registry is
/// read-only after loading and lookup is a function of the name alone, so
/// both lookups land on the same descriptor, name, width and height.
pub proof fn lemma_lookup_idempotent(
    reg: &SceneRegistry,
    name: Seq<char>,
    r1: Option<SceneItem>,
    r2: Option<SceneItem>,
)
    requires
        r1 matches Some(it) ==> spec_first_match(reg.names(), name) matches Some(i) && it
            == reg.items_seq()[i],
        r1 is Some <==> reg.contains_name(name),
        r2 matches Some(it) ==> spec_first_match(reg.names(), name) matches Some(i) && it
            == reg.items_seq()[i],
        r2 is Some <==> reg.contains_name(name),
    ensures
        r1 is Some <==> r2 is Some,
        r1 matches Some(a) ==> r2 matches Some(b) ==> a.name@ == b.name@ && a.width == b.width
            && a.height == b.height,
{
}

} // verus!
