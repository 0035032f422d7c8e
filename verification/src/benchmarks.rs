//! The benchmark categories, one module per backend.
//!
//! Each category turns a pool of scenes — the loaded scene archives for
//! the replay categories, the programmatic scene table for the others —
//! into benchmarks. Every module offers `list`, the category's benchmark
//! descriptors, and `plan`, which turns a scene name into the full
//! reporting identity of one run. The adapter layer executes a plan
//! against its concrete renderer.

pub mod scene_cpu;
pub mod scene_hybrid;
pub mod scene_skia;
pub mod vello_cpu;
pub mod vello_hybrid;
