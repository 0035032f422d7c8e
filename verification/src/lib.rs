//! A benchmarking harness for 2D rendering pipelines.
//!
//! The library holds the backend-independent core of the harness: the scene
//! and benchmark registries, the identifier dispatch, the timing runner with
//! its platform-clock abstraction, the measurement statistics, and the pixel
//! and render-target arithmetic that pixel readback relies on. The rendering
//! engines themselves are outside collaborators driven by a thin adapter
//! layer around this crate.

pub mod benchmarks;
pub mod filled_rects;
pub mod images;
pub mod pixels;
pub mod registry;
pub mod renderer;
pub mod result;
pub mod runner;
pub mod screenshot;
pub mod simd;
pub mod timer;
pub mod vello_scenes;

pub use filled_rects::FilledRects;
pub use images::{ImageHandle, ImageStore, PathsAndImages100};
pub use pixels::{PixelBuf, Rgba8};
pub use registry::{
    get_benchmark_list, resolve_benchmark, Backend, BenchmarkInfo, ResolvedBenchmark, RunPlan,
    SceneItem, SceneRegistry,
};
pub use renderer::{LayerStack, RenderTarget};
pub use result::{BenchmarkResult, Statistics};
pub use runner::{BenchRunner, CountingWorkload, NoopCalibration, Workload};
pub use screenshot::ScreenshotResult;
pub use simd::{
    available_level_infos, available_levels, level_from_suffix, level_suffix, SimdLevel,
    SimdLevelInfo,
};
pub use timer::{NativeTimer, Timer, VirtualTimer};
pub use vello_scenes::VelloSceneInfo;
