[package]
name = "hbee"
version = "0.1.0"
edition = "2021"
publish = false

[dependencies]
fastrand = "*"
embedded-graphics = "*"
log = "*"
serde = { version = "*", features = ["derive"] }
serde_with = "*"
thiserror = "*"
