[package]
name = "quorum_list_server"
version = "0.1.0"
edition = "2021"
publish = false

[dependencies]
semver = "1"
hex = "0.4"
serde = { version = "1", features = ["derive"] }
serde_json = "1"
toml = "0.8"
tokio = { version = "1", features = ["full"] }
futures = "0.3"
axum = { version = "0.7", features = ["macros"] }
tower-http = { version = "0.5", features = ["cors"] }
tonic = { version = "0.12", features = ["tls", "tls-roots"] }
prost = "0.13"
chrono = "0.4"
ctrlc = "3"
