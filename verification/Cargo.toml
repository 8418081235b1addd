[package]
name = "ceviche"
version = "0.1.0"
edition = "2021"
publish = false

[dependencies]
ctrlc = { version = "3", features = ["termination"] }
log = "0.4"
systemd-rs = "*"
