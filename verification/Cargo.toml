[package]
name = "sibyl"
version = "0.1.0"
edition = "2021"
publish = false

[dependencies]
rand = "0.8"
rand_chacha = "0.3"
image = { version = "0.25", default-features = false, features = ["png"] }
base64 = "0.22"
resvg = { version = "0.45", default-features = false }
serde = { version = "1", features = ["derive"] }
serde_json = "1"
thiserror = "1"
tokio = { version = "1", features = ["rt", "rt-multi-thread", "macros"] }
async-trait = "0.1"

[dev-dependencies]
tempfile = "3"
