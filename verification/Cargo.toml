[package]
name = "rgf_runtime"
version = "0.1.0"
edition = "2021"
publish = false

[dependencies]
indradb-lib = { version = "3", default-features = false }
wildmatch = "2"
uuid = "*"
serde = { version = "1", features = ["derive"] }
serde_json = "1"
toml = "0.5"
libloading = "0.7"
log = "0.4"
async-graphql = { version = "*", features = ["uuid"] }
