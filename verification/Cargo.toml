[package]
name = "wm_scrolling"
version = "0.1.0"
edition = "2021"
publish = false

[dependencies]
ambassador = "0.4"
anyhow = "1"
clap = { version = "4", features = ["derive"] }
serde = { version = "1", features = ["derive"] }
