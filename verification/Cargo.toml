[package]
name = "rascal"
version = "0.1.0"
edition = "2021"
publish = false

[dependencies]
tree-sitter = "=0.27.1"
tree-sitter-rust = "=0.24.2"
serde = { version = "=1.0.229", features = ["derive"] }
serde_json = "=1.0.154"
toml = "=1.1.8"
dirs-next = "=2.0.0"
rusqlite = { version = "=0.41.1", features = ["bundled"] }
sqlite-vec = "=0.1.9"
thiserror = "=2.0.21"
comfy-table = "=8.0.1"
