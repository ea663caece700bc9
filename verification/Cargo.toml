[package]
name = "mpris_remote"
version = "0.1.0"
edition = "2021"
publish = false

[dependencies]
clap = { version = "=4.6.7", features = ["derive"] }
notify-rust = "=4.18.2"
reqwest = { version = "=0.11.27", default-features = false, features = ["json", "rustls-tls"] }
serde = { version = "=1.0.229", features = ["derive"] }
temp-file = "=0.1.9"
tokio = { version = "=1.54.1", features = ["macros", "rt-multi-thread", "time"] }
zbus = "=3.15.2"
