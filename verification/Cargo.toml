[package]
name = "libosbuild"
version = "0.1.0"
edition = "2021"
publish = false

[dependencies]
clap = { version = "3", features = ["cargo"] }
serde = "1"
serde_json = { version = "1", features = ["preserve_order"] }
