[package]
name = "uiconf"
version = "0.1.0"
edition = "2021"
publish = false

[dependencies]
anyhow = "=1.0.104"
jomini = "=0.37.2"
serde = { version = "=1.0.229", features = ["derive"] }
thiserror = "=1.0.69"

[dev-dependencies]
egui = { version = "=0.23.0", default-features = false }
