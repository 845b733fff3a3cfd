[package]
name = "tether_agent"
version = "0.1.0"
edition = "2021"
publish = false

[dependencies]
rmpv = { version = "*", features = ["with-serde"] }
rmp-serde = "*"
serde_json = "*"
paho-mqtt = { version = "*", default-features = false }
log = "*"
anyhow = "*"
clap = { version = "*", features = ["derive"] }
