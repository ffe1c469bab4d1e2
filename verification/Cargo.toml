[package]
name = "adguard-home-toggle"
version = "0.1.0"
edition = "2021"
publish = false

[dependencies]
dirs = "6"
clap = { version = "4", features = ["derive"] }
serde = { version = "1", features = ["derive"] }
toml = "0.8"
reqwest = { version = "0.12", default-features = false, features = ["blocking", "json", "rustls-tls"] }
resvg = "*"
open = "5"
notify-rust = "4"
ksni = "0.2"
gtk4 = "*"
gtk4-layer-shell = "*"
