[package]
name = "rollup_node"
version = "0.1.0"
edition = "2021"
publish = false

[dependencies]
anyhow = "=1.0.104"
async-lock = "=3.4.2"
axum = { version = "=0.7.9", default-features = false, features = ["http1", "json", "tokio"] }
bincode = "=1.3.3"
celestia-rpc = { version = "=1.3.0", default-features = false }
celestia-types = "=1.3.0"
clap = { version = "=4.6.7", default-features = false, features = ["std", "derive", "help", "usage", "error-context"] }
ed25519-consensus = "=2.1.0"
futures = "=0.3.34"
hex = "=0.4.3"
jmt = { version = "=0.12.0", default-features = false, features = ["std", "sha2"] }
keystore-rs = "=0.3.1"
log = "=0.4.34"
pretty_env_logger = "=0.5.0"
reqwest = { version = "=0.12.28", default-features = false, features = ["json"] }
serde = { version = "=1.0.229", features = ["derive"] }
sha2 = "=0.10.9"
tokio = { version = "=1.54.1", features = ["macros", "rt-multi-thread", "time", "net", "sync"] }
