[package]
name = "block_demo"
version = "0.1.0"
edition = "2021"
publish = false

[dependencies]
resvg = "=0.48.1"
base64 = "=0.23.1"
tokio = { version = "=1.53.2", default-features = false, features = ["rt-multi-thread", "macros", "time", "sync", "net"] }
reqwest = { version = "=0.13.5", default-features = false }
axum = "=0.8.9"
rayon = "=1.12.0"
headless_chrome = { version = "=1.0.22", features = ["offline"] }
