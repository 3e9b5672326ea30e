[package]
name = "nm_mon"
version = "0.1.0"
edition = "2021"
publish = false

[dependencies]
anyhow = "*"
log = "*"
env_logger = "*"
mini-sansio-dbus = "*"
pollsendd = "*"
rustix = { version = "*", features = ["event", "net", "fs", "std"] }
