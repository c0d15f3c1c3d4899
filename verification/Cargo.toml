[package]
name = "wasmvault"
version = "0.2.0"
edition = "2021"
publish = false

[dependencies]
anyhow = "1"
clap = { version = "4", features = ["derive"] }
colored = "2"
comfy-table = "7"
ed25519-dalek = "2"
hex = "0.4"
serde = { version = "1", features = ["derive"] }
sha2 = "0.10"
tokio = { version = "1", features = ["rt", "sync"] }
toml = "0.8"
wasmparser = "0.215"
wasmtime = "24"
wasmtime-wasi = "24"
