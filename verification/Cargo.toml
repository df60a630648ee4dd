[package]
name = "eve_auth"
version = "0.1.0"
edition = "2021"
publish = false

[dependencies]
base64 = "=0.23.1"
rand = "=0.10.3"
sha2 = "=0.11.0"
uuid = { version = "=1.27.0", features = ["v4"] }
urlencoding = "=2.1.3"
jsonwebtoken = { version = "=11.1.0", features = ["rust_crypto"] }
serde_json = "=1.0.151"
serde = { version = "=1.0.229", features = ["derive"] }
reqwest = { version = "=0.13.5", default-features = false, features = ["blocking"] }
open = "=5.4.4"
chrono = { version = "=0.4.45", features = ["serde"] }
