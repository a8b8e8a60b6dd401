[package]
name = "release_core"
version = "0.1.0"
edition = "2021"
publish = false

[dependencies]
anyhow = "=1.0.104"
bytes = "=1.12.1"
cargo_metadata = "=0.23.1"
chrono = "=0.4.45"
dunce = "=1.0.5"
git-cliff-core = { version = "=2.14.2", default-features = false }
git2 = { version = "0.20", default-features = false }
ignore = "=0.4.34"
md5 = "=0.8.1"
regex = "=1.13.1"
tokio = { version = "=1.54.1", features = ["fs", "rt"] }
toml_edit = "=0.25.17"
tracing = "=0.1.44"
