[package]
name = "alvr_dashboard"
version = "0.1.0"
edition = "2021"
publish = false

[dependencies]
bincode = "1"
bytemuck = { version = "1", features = ["derive"] }
chrono = "0.4"
eframe = { version = "0.21", default-features = false, features = ["glow"] }
env_logger = "0.10"
fern = "0.6"
log = "0.4"
reqwest = { version = "0.11", default-features = false, features = ["json"] }
serde = { version = "1", features = ["derive"] }
serde_json = "1"
settings-schema = "*"
tokio = { version = "1", features = ["sync"] }
tungstenite = "0.19"
ureq = { version = "2", features = ["json"] }
