[package]
name = "mkv_slimmer"
version = "0.1.0"
edition = "2021"
publish = false

[dependencies]
anyhow = "1"
atty = "0.2"
clap = "4"
colored = "2"
dialoguer = "0.11"
glob = "0.3"
matroska = "*"
serde = { version = "1", features = ["derive"] }
serde_json = "1"
serde_yaml = "0.9"
tabled = "*"
tokio = { version = "1", features = ["rt-multi-thread", "macros", "fs"] }
which = "*"
