[package]
name = "vello_bench"
version = "0.1.0"
edition = "2021"
publish = false

[dependencies]
image = { version = "=0.25.10", default-features = false, features = ["jpeg", "png"] }
fearless_simd = "=0.7.0"
vello_cpu = "=0.3.0"
vello_common = "=0.3.0"
wgpu = "*"
pollster = "*"
