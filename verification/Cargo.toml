[package]
name = "reddit_watcher"
version = "0.1.0"
edition = "2021"
publish = false

[dependencies]
anyhow = "1"
eframe = { version = "0.22", default-features = false, features = ["default_fonts", "glow", "persistence"] }
egui_extras = { version = "0.22", features = ["image"] }
env_logger = "0.10"
futures = "0.3"
log = "0.4"
regex = "1"
ringbuf = "0.3"
serde = { version = "1", features = ["derive"] }
serde_json = "1"
tokio = { version = "1", features = ["rt", "time"] }
