[package]
name = "lfs_stt"
version = "0.1.0"
edition = "2021"
publish = false

[dependencies]
audioadapter-buffers = "*"
cpal = "*"
crossterm = "*"
insim = "*"
once_cell = "1"
rubato = "*"
serde = { version = "1", features = ["derive"] }
tokio = { version = "1", features = ["rt-multi-thread", "sync", "macros", "time"] }
toml = "*"
tracing = "0.1"
