[package]
name = "frpc_supervisor"
version = "0.1.0"
edition = "2021"
publish = false

[dependencies]
anyhow = "*"
chrono = "*"
log = "*"
log4rs = "*"
strip-ansi-escapes = "*"
windows-service = "*"
