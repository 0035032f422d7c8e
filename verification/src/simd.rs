//! Instruction-set tiers for the CPU rendering backend.
//!
//! A [`SimdLevel`] tags which instruction-set tier a CPU backend should
//! use. It is selected once per run, recorded in result identifiers
//! through a short suffix, and never changed mid-run. Detection of the
//! best tier the machine offers is delegated to the SIMD dispatch crate;
//! everything around the detected value — ranking, suffix naming, the
//! list of available tiers — is computed here.

use vstd::prelude::*;
use vstd::string::StringExecFns;

verus! {

/// One instruction-set tier a CPU backend can run under.
#[derive(Clone, Copy, Debug, PartialEq, Eq, Structural)]
pub enum SimdLevel {
    /// Scalar fallback, no SIMD.
    Fallback,
    /// 128-bit WebAssembly SIMD.
    WasmSimd128,
    /// Neon on 64-bit ARM.
    Neon,
    /// SSE2 on x86.
    Sse2,
    /// SSE4.2 on x86.
    Sse42,
    /// AVX2 (x86-64-v3).
    Avx2,
    /// Ice-Lake-class AVX-512.
    Avx512,
}

/// The short suffix tag of a tier, used in result records and benchmark
/// identifiers to disambiguate variants.
pub open spec fn spec_level_suffix(l: SimdLevel) -> Seq<char> {
    match l {
        SimdLevel::Fallback => "fallback"@,
        SimdLevel::WasmSimd128 => "wasm_simd128"@,
        SimdLevel::Neon => "neon"@,
        SimdLevel::Sse2 => "sse2"@,
        SimdLevel::Sse42 => "sse4_2"@,
        SimdLevel::Avx2 => "avx2"@,
        SimdLevel::Avx512 => "avx512"@,
    }
}

/// The short suffix tag of a tier.
pub fn level_suffix(l: SimdLevel) -> (s: &'static str)
    ensures
        s@ == spec_level_suffix(l),
{
    match l {
        SimdLevel::Fallback => "fallback",
        SimdLevel::WasmSimd128 => "wasm_simd128",
        SimdLevel::Neon => "neon",
        SimdLevel::Sse2 => "sse2",
        SimdLevel::Sse42 => "sse4_2",
        SimdLevel::Avx2 => "avx2",
        SimdLevel::Avx512 => "avx512",
    }
}

/// The tier a suffix tag names, if any.
pub open spec fn spec_level_from_suffix(s: Seq<char>) -> Option<SimdLevel> {
    if s == "fallback"@ {
        Some(SimdLevel::Fallback)
    } else if s == "wasm_simd128"@ {
        Some(SimdLevel::WasmSimd128)
    } else if s == "neon"@ {
        Some(SimdLevel::Neon)
    } else if s == "sse2"@ {
        Some(SimdLevel::Sse2)
    } else if s == "sse4_2"@ {
        Some(SimdLevel::Sse42)
    } else if s == "avx2"@ {
        Some(SimdLevel::Avx2)
    } else if s == "avx512"@ {
        Some(SimdLevel::Avx512)
    } else {
        None
    }
}

/// Parse a suffix tag back to its tier.
pub fn level_from_suffix(s: &str) -> (r: Option<SimdLevel>)
    ensures
        r == spec_level_from_suffix(s@),
{
    if crate::registry::str_eq(s, "fallback") {
        Some(SimdLevel::Fallback)
    } else if crate::registry::str_eq(s, "wasm_simd128") {
        Some(SimdLevel::WasmSimd128)
    } else if crate::registry::str_eq(s, "neon") {
        Some(SimdLevel::Neon)
    } else if crate::registry::str_eq(s, "sse2") {
        Some(SimdLevel::Sse2)
    } else if crate::registry::str_eq(s, "sse4_2") {
        Some(SimdLevel::Sse42)
    } else if crate::registry::str_eq(s, "avx2") {
        Some(SimdLevel::Avx2)
    } else if crate::registry::str_eq(s, "avx512") {
        Some(SimdLevel::Avx512)
    } else {
        None
    }
}

/// Suffix naming round-trips: parsing the suffix of any tier yields that
/// tier back, so the suffix in a result record identifies the tier
/// unambiguously.
pub proof fn lemma_suffix_round_trip(l: SimdLevel)
    ensures
        spec_level_from_suffix(spec_level_suffix(l)) == Some(l),
{
    reveal_strlit("fallback");
    reveal_strlit("wasm_simd128");
    reveal_strlit("neon");
    reveal_strlit("sse2");
    reveal_strlit("sse4_2");
    reveal_strlit("avx2");
    reveal_strlit("avx512");
    match l {
        SimdLevel::Fallback => {
        },
        SimdLevel::WasmSimd128 => {
            assert("wasm_simd128"@.len() != "fallback"@.len());
        },
        SimdLevel::Neon => {
            assert("neon"@.len() != "fallback"@.len());
            assert("neon"@.len() != "wasm_simd128"@.len());
        },
        SimdLevel::Sse2 => {
            assert("sse2"@.len() != "fallback"@.len());
            assert("sse2"@.len() != "wasm_simd128"@.len());
            assert("sse2"@[0] != "neon"@[0]);
        },
        SimdLevel::Sse42 => {
            assert("sse4_2"@.len() != "fallback"@.len());
            assert("sse4_2"@.len() != "wasm_simd128"@.len());
            assert("sse4_2"@.len() != "neon"@.len());
            assert("sse4_2"@.len() != "sse2"@.len());
        },
        SimdLevel::Avx2 => {
            assert("avx2"@.len() != "fallback"@.len());
            assert("avx2"@.len() != "wasm_simd128"@.len());
            assert("avx2"@[0] != "neon"@[0]);
            assert("avx2"@[0] != "sse2"@[0]);
            assert("avx2"@.len() != "sse4_2"@.len());
        },
        SimdLevel::Avx512 => {
            assert("avx512"@.len() != "fallback"@.len());
            assert("avx512"@.len() != "wasm_simd128"@.len());
            assert("avx512"@.len() != "neon"@.len());
            assert("avx512"@.len() != "sse2"@.len());
            assert("avx512"@[0] != "sse4_2"@[0]);
            assert("avx512"@.len() != "avx2"@.len());
        },
    }
}

/// The tiers available on a machine whose best tier is `l`: the chain of
/// its architecture family up to and including `l`, weakest first.
pub open spec fn spec_levels_up_to(l: SimdLevel) -> Seq<SimdLevel> {
    match l {
        SimdLevel::Fallback => seq![SimdLevel::Fallback],
        SimdLevel::WasmSimd128 => seq![SimdLevel::Fallback, SimdLevel::WasmSimd128],
        SimdLevel::Neon => seq![SimdLevel::Fallback, SimdLevel::Neon],
        SimdLevel::Sse2 => seq![SimdLevel::Fallback, SimdLevel::Sse2],
        SimdLevel::Sse42 => seq![SimdLevel::Fallback, SimdLevel::Sse2, SimdLevel::Sse42],
        SimdLevel::Avx2 => seq![
            SimdLevel::Fallback,
            SimdLevel::Sse2,
            SimdLevel::Sse42,
            SimdLevel::Avx2,
        ],
        SimdLevel::Avx512 => seq![
            SimdLevel::Fallback,
            SimdLevel::Sse2,
            SimdLevel::Sse42,
            SimdLevel::Avx2,
            SimdLevel::Avx512,
        ],
    }
}

/// The tiers available up to and including `l`, weakest first.
pub fn levels_up_to(l: SimdLevel) -> (v: Vec<SimdLevel>)
    ensures
        v@ == spec_levels_up_to(l),
{
    let mut v: Vec<SimdLevel> = Vec::new();
    v.push(SimdLevel::Fallback);
    match l {
        SimdLevel::Fallback => {},
        SimdLevel::WasmSimd128 => {
            v.push(SimdLevel::WasmSimd128);
        },
        SimdLevel::Neon => {
            v.push(SimdLevel::Neon);
        },
        SimdLevel::Sse2 => {
            v.push(SimdLevel::Sse2);
        },
        SimdLevel::Sse42 => {
            v.push(SimdLevel::Sse2);
            v.push(SimdLevel::Sse42);
        },
        SimdLevel::Avx2 => {
            v.push(SimdLevel::Sse2);
            v.push(SimdLevel::Sse42);
            v.push(SimdLevel::Avx2);
        },
        SimdLevel::Avx512 => {
            v.push(SimdLevel::Sse2);
            v.push(SimdLevel::Sse42);
            v.push(SimdLevel::Avx2);
            v.push(SimdLevel::Avx512);
        },
    }
    proof {
        assert(v@ =~= spec_levels_up_to(l));
    }
    v
}

/// Relies on `fearless_simd::Level::new`: runtime detection of the best
/// instruction-set tier this CPU supports, mapped onto the library's tier
/// tags with one arm per x86 variant; the catch-all arm reports the
/// fallback tier for any other architecture's variant. The result depends
/// on the machine, so nothing is promised of the value.
#[verifier::external_body]
pub fn detect_simd_level() -> SimdLevel {
    match fearless_simd::Level::new() {
        fearless_simd::Level::Sse2(_) => SimdLevel::Sse2,
        fearless_simd::Level::Sse4_2(_) => SimdLevel::Sse42,
        fearless_simd::Level::Avx2(_) => SimdLevel::Avx2,
        fearless_simd::Level::Avx512(_) => SimdLevel::Avx512,
        _ => SimdLevel::Fallback,
    }
}

/// A tier together with its suffix tag, for reporting.
#[derive(Debug)]
pub struct SimdLevelInfo {
    /// The tier.
    pub level: SimdLevel,
    /// Its suffix tag.
    pub suffix: String,
}

/// The tiers available on this machine, weakest first: the chain of the
/// detected architecture family up to the detected best tier.
pub fn available_levels() -> (v: Vec<SimdLevel>)
    ensures
        exists|l: SimdLevel| v@ == spec_levels_up_to(l),
{
    let best = detect_simd_level();
    let v = levels_up_to(best);
    proof {
        assert(v@ == spec_levels_up_to(best));
    }
    v
}

/// The available tiers of this machine, each paired with its suffix tag.
pub fn available_level_infos() -> (v: Vec<SimdLevelInfo>)
    ensures
        forall|i: int|
            0 <= i < v@.len() ==> (#[trigger] v@[i]).suffix@ == spec_level_suffix(v@[i].level),
        exists|l: SimdLevel|
            v@.map_values(|info: SimdLevelInfo| info.level) == spec_levels_up_to(l),
{
    let levels = available_levels();
    let ghost best = choose|l: SimdLevel| levels@ == spec_levels_up_to(l);
    let mut v: Vec<SimdLevelInfo> = Vec::new();
    let mut i: usize = 0;
    while i < levels.len()
        invariant
            i <= levels@.len(),
            v@.len() == i,
            forall|k: int|
                0 <= k < i ==> (#[trigger] v@[k]).suffix@ == spec_level_suffix(v@[k].level),
            forall|k: int| 0 <= k < i ==> (#[trigger] v@[k]).level == levels@[k],
        decreases levels@.len() - i,
    {
        let level = levels[i];
        let suffix = level_suffix(level).to_owned();
        v.push(SimdLevelInfo { level, suffix });
        i = i + 1;
    }
    proof {
        assert(v@.map_values(|info: SimdLevelInfo| info.level) =~= levels@);
    }
    v
}

} // verus!
