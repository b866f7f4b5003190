[package]
name = "gs_visualizer"
version = "0.1.0"
edition = "2021"
publish = false

[dependencies]
foxglove = "0.21.0"
libc = "*"
serde = { version = "*", features = ["derive"] }
thiserror = "*"
tokio = { version = "*", features = ["full"] }
toml = "*"
tracing = "*"
tracing-subscriber = { version = "*", features = ["env-filter", "fmt"] }
