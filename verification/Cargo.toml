[package]
name = "pics2wall"
version = "0.1.0"
edition = "2021"
publish = false

[dependencies]
chrono = { version = "0.4", default-features = false, features = ["clock", "std"] }
curl = "0.4"
eframe = "0.19"
egui = "0.19"
egui_extras = "0.19"
image = { version = "0.24", default-features = false, features = ["jpeg", "png"] }
log = "0.4"
log4rs = { version = "1.2", default-features = false, features = ["file_appender", "pattern_encoder"] }
serde = { version = "1", features = ["derive", "rc"] }
serde_json = "1"
winapi = { version = "0.3", features = ["winuser"] }
winreg = "0.10"
