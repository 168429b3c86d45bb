[package]
name = "matrix"
version = "0.1.0"
edition = "2021"
publish = false

[dependencies]
anyhow = "1"
as_variant = "1"
async-trait = "0.1"
bytes = "1"
chrono = { version = "0.4", features = ["serde"] }
hex = "0.4"
hmac = "0.12"
http = "0.2"
mime = "0.3"
rand = "0.8"
reqwest = { version = "0.11", default-features = false, features = ["json"] }
ruma-client = "0.12"
ruma-common = { version = "0.12", features = ["api", "client"] }
ruma-events = "0.27"
ruma-identifiers-validation = "0.9"
serde = { version = "1", features = ["derive"] }
serde_json = "1"
serde_path_to_error = "0.1"
serde_qs = "0.12"
sha1 = "0.10"
tracing = "0.1"
url = "2"
