[package]
name = "ota_flasher"
version = "0.1.0"
edition = "2021"
publish = false

[dependencies]
chrono = { version = "0.4", default-features = false, features = ["now", "std"] }
dirs = "6"
egui = "0.29"
regex = "1"
reqwest = { version = "0.12", default-features = false, features = ["json", "multipart", "rustls-tls"] }
rfd = { version = "0.15", default-features = false, features = ["tokio", "xdg-portal"] }
rumqttc = { version = "0.24", default-features = false, features = ["use-rustls"] }
serde = { version = "1", features = ["derive"] }
serde_json = "1"
tokio = { version = "1", features = ["fs", "rt-multi-thread"] }
