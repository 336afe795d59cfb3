[package]
name = "compositor_core"
version = "0.1.0"
edition = "2021"
publish = false

[dependencies]
ash = "=0.37.3"
anyhow = "=1.0.104"
chrono = "=0.4.45"
drm-fourcc = "=2.2.0"
nix = "=0.31.3"
smithay = { version = "=0.7.0", default-features = false, features = ["wayland_frontend", "desktop", "backend_drm", "backend_gbm", "backend_egl"] }
tokio = { version = "=1.54.1", features = ["rt-multi-thread", "macros", "time", "process", "signal"] }
tracing = "=0.1.44"
tracing-appender = "=0.2.5"
tracing-subscriber = { version = "=0.3.23", features = ["env-filter", "json"] }
