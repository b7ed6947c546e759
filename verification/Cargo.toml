[package]
name = "zeebe-rs"
version = "0.2.0"
edition = "2021"
publish = false

[dependencies]
oauth2 = "5"
prost = "0.13"
serde = { version = "1", features = ["derive"] }
serde_json = "1"
thiserror = "2"
tokio = { version = "1", features = ["rt-multi-thread", "macros", "time", "sync"] }
tonic = { version = "0.12", features = ["tls"] }
