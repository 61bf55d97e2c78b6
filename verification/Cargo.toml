[package]
name = "proxy_primary"
version = "0.1.0"
edition = "2021"
publish = false

[dependencies]
tiny-keccak = { version = "2", features = ["sha3"] }
tokio = { version = "1", features = ["sync", "time", "macros", "rt"] }
async-trait = "0.1"
prometheus = { version = "0.13", default-features = false }
once_cell = "1"
thiserror = "1"
anyhow = "1"
log = "0.4"
futures = "0.3"
