[package]
name = "systemd_client"
version = "0.1.0"
edition = "2021"
publish = false

[dependencies]
zbus = "=5.19.0"

[dev-dependencies]
smol = "*"
temp-env = "*"
tempfile = "*"
