[package]
name = "payrex"
version = "0.1.0"
edition = "2021"
publish = false

[dependencies]
base64 = "=0.23.1"
chrono = "=0.4.45"
reqwest = { version = "=0.13.5", default-features = false, features = ["json", "form"] }
serde = { version = "=1.0.229", features = ["derive"] }
serde_json = "=1.0.151"
serde_plain = "=1.0.2"
serde_qs = "=1.1.3"
thiserror = "=2.0.21"
tokio = { version = "=1.53.2", features = ["rt", "macros", "time"] }
