[package]
name = "wiremock_ui"
version = "0.1.0"
edition = "2021"
publish = false

[dependencies]
reqwest = { version = "=0.11.27", default-features = false, features = ["json"] }
serde = { version = "=1.0.229", features = ["derive"] }
tokio = { version = "=1.54.1", features = ["rt", "rt-multi-thread", "time"] }
rand = "=0.8.8"
notify = "=6.1.1"
eframe = { version = "=0.23.0", default-features = false, features = ["default_fonts", "glow", "x11"] }
rfd = { version = "=0.12.1", default-features = false, features = ["xdg-portal"] }
