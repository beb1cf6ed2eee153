[package]
name = "ntp_clock"
version = "0.1.0"
edition = "2021"
publish = false

[dependencies]
chrono = "0.4"
crossterm = "0.29"
ctrlc = "3"
quanta = "0.12"
rand = "0.9"
serde = { version = "1", features = ["derive"] }
serde_yaml = "0.9"
