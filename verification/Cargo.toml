[package]
name = "srun_auto_dial"
version = "0.1.0"
edition = "2021"
publish = false

[dependencies]
axum = "0.8"
dhcproto = "*"
inquire = "0.7"
pnet = "0.35"
rand = "0.9"
reqwest = { version = "0.12", default-features = false }
rtnetlink = "*"
serde = { version = "1", features = ["derive"] }
serde_json = "1"
subtle = "2"
thiserror = "2"
tokio = { version = "1", features = ["full"] }
toml = "0.8"
tracing = "0.1"
