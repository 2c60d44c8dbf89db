[package]
name = "frida_manager"
version = "0.1.0"
edition = "2021"
publish = false

[dependencies]
anyhow = "1"
clap = "2"
dirs = "5"
rayon = "1"
reqwest = { version = "0.11", features = ["blocking", "json"] }
serde_json = "1"
xz2 = "0.1"
