[package]
name = "ui_build_compression"
version = "0.1.0"
edition = "2021"
publish = false

[dependencies]
brotli = "*"
flate2 = "*"
zstd = "*"
tokio = { version = "*", features = ["rt-multi-thread", "sync"] }
futures = "*"
jwalk = "*"
colored = "*"
