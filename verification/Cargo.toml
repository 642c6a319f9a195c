[package]
name = "home-radio"
version = "1.0.0"
edition = "2021"
publish = false

[dependencies]
actix-web = { version = "4", default-features = false, features = ["macros"] }
awc = { version = "3", default-features = false }
clap = "2"
env_logger = "0.9"
log = "0.4"
serde = { version = "1", features = ["derive"] }
serde_json = "1"
thiserror = "1"
tokio = { version = "1", features = ["fs", "io-util", "time"] }
vlc-rs = "0.3"
