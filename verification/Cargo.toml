[package]
name = "interop_proof"
version = "0.1.0"
edition = "2021"
publish = false

[dependencies]
alloy-primitives = "1"
alloy-rpc-types-engine = { version = "1", features = ["jwt"] }
anyhow = "1"
async-trait = "0.1"
clap = { version = "4", features = ["derive", "env"] }
serde = { version = "1", features = ["derive"] }
serde_json = "1"
thiserror = "2"
tokio = { version = "1", features = ["rt", "macros"] }
url = "2"

[dev-dependencies]
alloy-rlp = "0.3"
