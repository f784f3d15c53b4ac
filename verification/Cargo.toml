[package]
name = "glider_clone"
version = "0.1.0"
edition = "2021"
publish = false

[dependencies]
url = "2"
chrono = "0.4"
reqwest = { version = "0.12", default-features = false, features = ["json", "rustls-tls"] }
futures = "0.3"
tokio = { version = "1", features = ["rt-multi-thread"] }
async-channel = "2"
serde = { version = "1", features = ["derive"] }
glib = "0.20"
gtk4 = "0.9"
libadwaita = { version = "0.7", features = ["v1_4"] }
