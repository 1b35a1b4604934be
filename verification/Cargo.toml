[package]
name = "ferrispot"
version = "0.1.0"
edition = "2021"
publish = false

[dependencies]
base64 = "0.13"
sha2 = "0.10"
rand = "0.8"
reqwest = { version = "0.11", default-features = false, features = ["json", "blocking", "rustls-tls"] }
serde = { version = "1", features = ["derive"] }
serde_json = "1"
thiserror = "1"
tokio = { version = "1", features = ["time"] }
async-trait = "0.1"
log = "0.4"

[dev-dependencies]
serde_json = "1"
