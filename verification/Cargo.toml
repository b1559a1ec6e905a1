[package]
name = "openvoice"
version = "0.1.0"
edition = "2021"
publish = false

[dependencies]
base64 = "*"
cpal = "*"
reqwest = { version = "*", default-features = false, features = ["json", "rustls-tls"] }
serde = { version = "1", features = ["derive"] }
serde_json = "1"
tokio = { version = "1", features = ["rt-multi-thread", "macros", "time"] }

[dev-dependencies]
hound = "*"
