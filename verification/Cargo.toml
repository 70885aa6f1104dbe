[package]
name = "wasm_tools"
version = "0.1.0"
edition = "2021"
publish = false

[dependencies]
wasmparser = "*"
console = "*"
serde = { version = "1", features = ["derive"] }
serde_json = "1"
toml = "*"
anyhow = "1"
clap = { version = "4", features = ["derive"] }
dirs = "*"
ignore = "*"
comfy-table = "*"
indicatif = "*"
tokio = { version = "1", features = ["full"] }
rusqlite = { version = "*", features = ["bundled"] }
oci-client = "*"
docker_credential = "*"
dotenvy = "*"
