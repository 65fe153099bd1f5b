[package]
name = "obsidian_scheduler"
version = "0.1.0"
edition = "2021"
publish = false

[dependencies]
tokio = { version = "1", features = ["sync", "rt", "rt-multi-thread", "time"] }
anyhow = "1"
thiserror = "2"
log = "0.4"
