[package]
name = "awaur"
version = "0.1.0"
edition = "2021"
publish = false

[dependencies]
async-trait = "*"
futures-core = "*"
futures-lite = "*"
http = "*"
serde = { version = "*", features = ["derive"] }
serde_json = "*"
serde_path_to_error = "*"
serde_qs = "*"
thiserror = "*"
url = "*"

[dev-dependencies]
base62 = "*"
