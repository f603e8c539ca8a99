[package]
name = "tinymist"
version = "0.1.0"
edition = "2021"
publish = false

[dependencies]
anyhow = "1"
comemo = "0.4"
crossbeam-channel = "0.5"
log = "0.4"
lsp-server = "0.7"
lsp-types = "0.95"
percent-encoding = "2"
serde = { version = "1", features = ["derive"] }
serde_json = "1"
toml = "0.8"
typst-syntax = "0.11"
