[package]
name = "puread_android"
version = "0.1.0"
edition = "2021"
publish = false

[dependencies]
quick-xml = "=0.37.5"
sha2 = "=0.10.9"
serde = { version = "=1.0.229", features = ["derive"] }
serde_json = "=1.0.154"
rustix = { version = "=1.1.6", features = ["fs"] }
time = "=0.3.55"
thiserror = "=2.0.21"
