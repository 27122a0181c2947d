[package]
name = "soql_studio"
version = "0.1.0"
edition = "2021"
publish = false

[dependencies]
csv = "=1.4.0"
eframe = { version = "=0.36.2", default-features = false, features = ["glow", "x11"] }
egui = "=0.36.2"
egui_dock = "=0.21.1"
flowync = { version = "=5.1.0", features = ["compact"] }
reqwest = { version = "=0.13.5", default-features = false }
serde = "=1.0.229"
serde_derive = "=1.0.229"
serde_json = "=1.0.151"
tokio = { version = "=1.53.2", features = ["rt-multi-thread", "time"] }
