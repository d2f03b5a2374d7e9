[package]
name = "blight-rs"
version = "0.1.0"
edition = "2021"
publish = false

[dependencies]
anyhow = "=1.0.104"
libmimalloc-sys = { version = "=0.1.49", features = ["extended", "v2", "arena"] }
