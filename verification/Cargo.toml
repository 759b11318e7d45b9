[package]
name = "keybridge"
version = "0.1.0"
edition = "2021"
publish = false

[dependencies]
bitflags = { version = "2", features = ["serde"] }
clap = { version = "4", features = ["derive"] }
derive-new = "*"
esp-idf-svc = "*"
futures-util = "0.3"
log = "0.4"
mime_guess = "2"
once_cell = "1"
rmp-serde = "1"
rust-embed = "8"
serde = { version = "1", features = ["derive"] }
serde_bytes = "0.11"
tokio = { version = "1", features = ["full"] }
warp = "0.3"
