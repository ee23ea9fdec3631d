[package]
name = "vst_host"
version = "0.1.0"
edition = "2021"
publish = false

[dependencies]
vst3 = "=0.3.0"
winit = { version = "=0.30.13", default-features = false, features = ["rwh_06", "x11"] }
libloading = "=0.8.9"
anyhow = "=1.0.104"
thiserror = "=1.0.69"
tracing = "=0.1.44"
tracing-subscriber = "=0.3.23"
core-foundation = "=0.10.1"
