[package]
name = "ship"
version = "0.2.0"
edition = "2021"
publish = false

[dependencies]
chrono = "0.4"
regex = "1"
uuid = { version = "1", features = ["v4"] }
serde = { version = "1", features = ["derive"] }
serde_json = "1"
toml = "0.8"
clap = { version = "4", features = ["derive"] }
thiserror = "2"
tokio = { version = "1", features = ["rt", "macros", "time", "io-std"] }
reqwest = { version = "0.12", default-features = false, features = ["rustls-tls"] }
rmcp = { version = "0.8", features = ["server", "transport-io", "macros"] }
schemars = "1"
